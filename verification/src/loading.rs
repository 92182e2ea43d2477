//! Which files of the plugins directory are loaded as plugins.

use vstd::prelude::*;

use crate::text::{ends_with, views};

verus! {

/// Whether a path names a plugin file: it ends with `.deckplugin`.
pub open spec fn is_plugin_file(path: Seq<char>) -> bool {
    ".deckplugin"@.len() <= path.len() && path.subrange(
        path.len() - ".deckplugin"@.len(),
        path.len() as int,
    ) == ".deckplugin"@
}

/// The paths that name plugin files, in order; the others are passed over.
pub fn select_plugin_paths(paths: &Vec<String>) -> (r: Vec<String>)
    ensures
        views(r@) == views(paths@).filter(|p: Seq<char>| is_plugin_file(p)),
{
    let ghost pred = |p: Seq<char>| is_plugin_file(p);
    let mut out: Vec<String> = Vec::new();
    let mut i: usize = 0;
    while i < paths.len()
        invariant
            i <= paths@.len(),
            pred == (|p: Seq<char>| is_plugin_file(p)),
            views(out@) == views(paths@).subrange(0, i as int).filter(pred),
        decreases paths@.len() - i,
    {
        let keep = ends_with(paths[i].as_str(), ".deckplugin");
        let ghost before = views(out@);
        proof {
            let s = views(paths@).subrange(0, i + 1);
            assert(s.drop_last() =~= views(paths@).subrange(0, i as int));
            assert(s.last() == paths@[i as int]@);
            reveal(Seq::filter);
        }
        if keep {
            out.push(paths[i].clone());
            assert(views(out@) =~= before.push(paths@[i as int]@));
        }
        i = i + 1;
    }
    assert(views(paths@).subrange(0, i as int) =~= views(paths@));
    out
}

} // verus!
