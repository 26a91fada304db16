//! The cache location resolver: a deterministic choice of the per-user
//! cache root from environment values, never failing — when nothing
//! better is set it degrades to the current directory.

use vstd::prelude::*;
use vstd::string::*;

verus! {

/// Computes the cache root. On Windows-like targets the per-user local
/// application data directory is preferred, then the roaming one, then
/// the current directory, each with an `nforge` subdirectory; on
/// Unix-like targets the home directory (or the current directory) with
/// a hidden `.nforge` subdirectory.
pub fn resolve_cache_root(
    windows_like: bool,
    local_app_data: &Option<String>,
    roaming_app_data: &Option<String>,
    home: &Option<String>,
) -> (r: String)
    ensures
        windows_like ==> (local_app_data matches Some(b) ==> r@ == b@ + seq![
            '/',
            'n',
            'f',
            'o',
            'r',
            'g',
            'e',
        ]),
        (windows_like && local_app_data is None) ==> (roaming_app_data matches Some(b)
            ==> r@ == b@ + seq!['/', 'n', 'f', 'o', 'r', 'g', 'e']),
        windows_like && local_app_data is None && roaming_app_data is None ==> r@ == seq![
            '.',
            '/',
            'n',
            'f',
            'o',
            'r',
            'g',
            'e',
        ],
        !windows_like ==> (home matches Some(h) ==> r@ == h@ + seq![
            '/',
            '.',
            'n',
            'f',
            'o',
            'r',
            'g',
            'e',
        ]),
        !windows_like && home is None ==> r@ == seq![
            '.',
            '/',
            '.',
            'n',
            'f',
            'o',
            'r',
            'g',
            'e',
        ],
{
    if windows_like {
        proof {
            reveal_strlit("/nforge");
            assert("/nforge"@ =~= seq!['/', 'n', 'f', 'o', 'r', 'g', 'e']);
            reveal_strlit(".");
            assert("."@ =~= seq!['.']);
            assert(seq!['.'] + seq!['/', 'n', 'f', 'o', 'r', 'g', 'e'] =~= seq![
                '.',
                '/',
                'n',
                'f',
                'o',
                'r',
                'g',
                'e',
            ]);
        }
        let base = match local_app_data {
            Some(b) => b.clone(),
            None => match roaming_app_data {
                Some(b) => b.clone(),
                None => ".".to_owned(),
            },
        };
        base.concat("/nforge")
    } else {
        proof {
            reveal_strlit("/.nforge");
            assert("/.nforge"@ =~= seq!['/', '.', 'n', 'f', 'o', 'r', 'g', 'e']);
            reveal_strlit(".");
            assert("."@ =~= seq!['.']);
            assert(seq!['.'] + seq!['/', '.', 'n', 'f', 'o', 'r', 'g', 'e'] =~= seq![
                '.',
                '/',
                '.',
                'n',
                'f',
                'o',
                'r',
                'g',
                'e',
            ]);
        }
        let base = match home {
            Some(h) => h.clone(),
            None => ".".to_owned(),
        };
        base.concat("/.nforge")
    }
}

} // verus!
