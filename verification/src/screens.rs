//! The ordered map of named button screens, kept in an `indexmap::IndexMap`.

use vstd::prelude::*;

use indexmap::IndexMap;

use crate::buttons::ButtonView;
use crate::keyed::{has_key, index_of_key, keys_of};
use crate::screen::ButtonScreen;

verus! {

/// An insertion-ordered hash map of the `indexmap` crate.
#[verifier::external_type_specification]
#[verifier::external_body]
#[verifier::reject_recursive_types(K)]
#[verifier::reject_recursive_types(V)]
#[verifier::reject_recursive_types(S)]
pub struct ExIndexMap<K, V, S>(IndexMap<K, V, S>);

/// What a map of screens holds: each screen's name and buttons, in the
/// map's order.
pub type ScreensView = Seq<(Seq<char>, Seq<((u32, u32), ButtonView)>)>;

/// The entries of a map of screens, in order, each screen taken by its
/// positioned buttons.
pub uninterp spec fn screen_map_entries(m: IndexMap<String, ButtonScreen>) -> Seq<
    (Seq<char>, Seq<((u32, u32), ButtonView)>),
>;

/// The entries after `IndexMap::swap_remove` of the entry at `i`: the last
/// entry takes its place.
pub open spec fn swap_remove_at(e: ScreensView, i: int) -> ScreensView {
    e.update(i, e.last()).drop_last()
}

/// The entries after `IndexMap::swap_indices(a, b)`.
pub open spec fn swap_at(e: ScreensView, a: int, b: int) -> ScreensView {
    e.update(a, e[b]).update(b, e[a])
}

/// `IndexMap::new`: a map without entries.
#[verifier::external_body]
pub(crate) fn screen_map_new() -> (r: IndexMap<String, ButtonScreen>)
    ensures
        screen_map_entries(r) == Seq::<(Seq<char>, Seq<((u32, u32), ButtonView)>)>::empty(),
{
    IndexMap::new()
}

/// `IndexMap::len`: the number of entries.
#[verifier::external_body]
pub(crate) fn screen_map_len(m: &IndexMap<String, ButtonScreen>) -> (r: usize)
    ensures
        r == screen_map_entries(*m).len(),
{
    m.len()
}

/// `IndexMap::get_index_of`: the position of the entry with key `k`.
#[verifier::external_body]
pub(crate) fn screen_map_get_index_of(m: &IndexMap<String, ButtonScreen>, k: &str) -> (r: Option<
    usize,
>)
    ensures
        match r {
            Some(i) => i < screen_map_entries(*m).len() && screen_map_entries(*m)[i as int].0
                == k@,
            None => !has_key(screen_map_entries(*m), k@),
        },
{
    m.get_index_of(k)
}

/// `IndexMap::get_index`: the key and value of the entry at position `i`.
#[verifier::external_body]
pub(crate) fn screen_map_get_index(m: &IndexMap<String, ButtonScreen>, i: usize) -> (r: Option<
    (&String, &ButtonScreen),
>)
    ensures
        r is Some == (i < screen_map_entries(*m).len()),
        r matches Some((k, v)) ==> k@ == screen_map_entries(*m)[i as int].0 && v.entries()
            == screen_map_entries(*m)[i as int].1,
{
    m.get_index(i)
}

/// `IndexMap::insert`: sets the value of key `k`, in place when it is there,
/// as the last entry otherwise; gives back the value it replaces.
#[verifier::external_body]
pub(crate) fn screen_map_insert(
    m: &mut IndexMap<String, ButtonScreen>,
    k: String,
    v: ButtonScreen,
) -> (r: Option<ButtonScreen>)
    ensures
        has_key(screen_map_entries(*old(m)), k@) ==> screen_map_entries(*final(m))
            == screen_map_entries(*old(m)).update(
            index_of_key(screen_map_entries(*old(m)), k@),
            (k@, v.entries()),
        ),
        !has_key(screen_map_entries(*old(m)), k@) ==> screen_map_entries(*final(m))
            == screen_map_entries(*old(m)).push((k@, v.entries())),
        r is Some == has_key(screen_map_entries(*old(m)), k@),
        r matches Some(o) ==> o.entries() == screen_map_entries(*old(m))[index_of_key(
            screen_map_entries(*old(m)),
            k@,
        )].1,
{
    m.insert(k, v)
}

/// `IndexMap::swap_remove`: takes out the entry with key `k`, the last entry
/// taking its place.
#[verifier::external_body]
pub(crate) fn screen_map_swap_remove(m: &mut IndexMap<String, ButtonScreen>, k: &str) -> (r: Option<
    ButtonScreen,
>)
    ensures
        has_key(screen_map_entries(*old(m)), k@) ==> screen_map_entries(*final(m)) == swap_remove_at(
            screen_map_entries(*old(m)),
            index_of_key(screen_map_entries(*old(m)), k@),
        ),
        !has_key(screen_map_entries(*old(m)), k@) ==> screen_map_entries(*final(m))
            == screen_map_entries(*old(m)),
        r is Some == has_key(screen_map_entries(*old(m)), k@),
        r matches Some(o) ==> o.entries() == screen_map_entries(*old(m))[index_of_key(
            screen_map_entries(*old(m)),
            k@,
        )].1,
{
    m.swap_remove(k)
}

/// `IndexMap::shift_remove`: takes out the entry with key `k`, the others
/// keeping their order.
#[verifier::external_body]
pub(crate) fn screen_map_shift_remove(m: &mut IndexMap<String, ButtonScreen>, k: &str) -> (r: Option<
    ButtonScreen,
>)
    ensures
        has_key(screen_map_entries(*old(m)), k@) ==> screen_map_entries(*final(m))
            == screen_map_entries(*old(m)).remove(index_of_key(screen_map_entries(*old(m)), k@)),
        !has_key(screen_map_entries(*old(m)), k@) ==> screen_map_entries(*final(m))
            == screen_map_entries(*old(m)),
        r is Some == has_key(screen_map_entries(*old(m)), k@),
{
    m.shift_remove(k)
}

/// `IndexMap::swap_indices`: exchanges the entries at positions `a` and `b`;
/// it panics when either is out of bounds, so both are required in bounds.
#[verifier::external_body]
pub(crate) fn screen_map_swap_indices(m: &mut IndexMap<String, ButtonScreen>, a: usize, b: usize)
    requires
        a < screen_map_entries(*old(m)).len(),
        b < screen_map_entries(*old(m)).len(),
    ensures
        screen_map_entries(*final(m)) == swap_at(screen_map_entries(*old(m)), a as int, b as int),
{
    m.swap_indices(a, b)
}

/// `IndexMap::clone`: a map with the same entries, each value cloned with
/// `ButtonScreen::clone` (which keeps the buttons and their order).
#[verifier::external_body]
pub(crate) fn screen_map_clone(m: &IndexMap<String, ButtonScreen>) -> (r: IndexMap<
    String,
    ButtonScreen,
>)
    ensures
        screen_map_entries(r) == screen_map_entries(*m),
{
    m.clone()
}

/// The names of the screens, in order.
pub fn screen_map_keys(m: &IndexMap<String, ButtonScreen>) -> (r: Vec<String>)
    ensures
        r@.map_values(|s: String| s@) == keys_of(screen_map_entries(*m)),
{
    let n = screen_map_len(m);
    let mut out: Vec<String> = Vec::new();
    let mut i: usize = 0;
    while i < n
        invariant
            n == screen_map_entries(*m).len(),
            i <= n,
            out@.map_values(|s: String| s@) == keys_of(screen_map_entries(*m)).subrange(0, i as int),
        decreases n - i,
    {
        match screen_map_get_index(m, i) {
            Some((k, _)) => {
                let ghost prev = out@.map_values(|s: String| s@);
                out.push(k.clone());
                assert(out@.map_values(|s: String| s@) =~= prev.push(k@));
            },
            None => {},
        }
        i = i + 1;
        assert(out@.map_values(|s: String| s@) =~= keys_of(screen_map_entries(*m)).subrange(
            0,
            i as int,
        ));
    }
    assert(keys_of(screen_map_entries(*m)).subrange(0, i as int) =~= keys_of(screen_map_entries(*m)));
    out
}

} // verus!
