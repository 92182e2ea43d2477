//! The icons the deck knows: a name for each icon file under the icons
//! directory.

use vstd::prelude::*;

use crate::keyed::keys_of;
use crate::strmap::StringMap;
use crate::text::{concat3, views};

verus! {

/// The standard base64 text of some bytes, with padding.
pub uninterp spec fn base64_standard_spec(bytes: Seq<u8>) -> Seq<char>;

/// The length of the padded base64 text of `n` bytes: four characters for
/// each started group of three bytes.
pub open spec fn base64_padded_len(n: nat) -> nat {
    if n % 3 == 0 {
        (n / 3) * 4
    } else {
        (n / 3) * 4 + 4
    }
}

/// The standard base64 text of `bytes`:
/// `base64::engine::general_purpose::STANDARD.encode`. Claimed: the text is
/// a function of the bytes, and its length is what `base64::encoded_len`
/// computes with padding. The call panics when that length overflows;
/// `requires` keeps it in range.
#[verifier::external_body]
fn base64_standard(bytes: &[u8]) -> (r: String)
    requires
        (bytes@.len() / 3) * 4 + 4 <= usize::MAX,
    ensures
        r@ == base64_standard_spec(bytes@),
        r@.len() == base64_padded_len(bytes@.len()),
{
    base64::Engine::encode(&base64::engine::general_purpose::STANDARD, bytes)
}

/// The path of an icon file: the store's directory, `/`, the file.
pub open spec fn icon_path(store_path: Seq<char>, file: Seq<char>) -> Seq<char> {
    store_path + seq!['/'] + file
}

/// The icons of the deck: their names and files, and the directory that
/// holds the files.
pub struct IconStore {
    store_path: String,
    icons: StringMap,
}

impl IconStore {
    /// The directory that holds the icon files.
    pub closed spec fn store_path(self) -> Seq<char> {
        self.store_path@
    }

    /// The file of each icon, by name, in the order they were given.
    pub closed spec fn entries(self) -> Seq<(Seq<char>, Seq<char>)> {
        self.icons.entries()
    }

    /// The file of each icon, by name.
    pub open spec fn icons(self) -> Map<Seq<char>, Seq<char>> {
        crate::keyed::map_of(self.entries())
    }

    /// A store of the configured icons under the directory `store_path`.
    pub fn from_config(store_path: String, icons: StringMap) -> (r: Self)
        ensures
            r.store_path() == store_path@,
            r.entries() == icons.entries(),
    {
        IconStore { store_path, icons }
    }

    /// The configured icons, as they were given.
    pub fn to_config(&self) -> (r: StringMap)
        ensures
            r.entries() == self.entries(),
    {
        self.icons.duplicate()
    }

    /// The path of the icon `id`'s file, if there is such an icon.
    pub fn get_icon_path(&self, id: &str) -> (r: Option<String>)
        ensures
            r is Some == self.icons().contains_key(id@),
            r matches Some(p) ==> p@ == icon_path(self.store_path(), self.icons()[id@]),
    {
        match self.icons.get(id) {
            Some(file) => {
                proof {
                    reveal_strlit("/");
                }
                let p = concat3(self.store_path.as_str(), "/", file.as_str());
                assert(p@ =~= icon_path(self.store_path@, file@));
                Some(p)
            },
            None => None,
        }
    }

    /// The base64 text of an icon's raw bytes, as the deck sends icons.
    pub fn encode_icon_b64(raw: &Vec<u8>) -> (r: String)
        requires
            (raw@.len() / 3) * 4 + 4 <= usize::MAX,
        ensures
            r@ == base64_standard_spec(raw@),
            r@.len() == base64_padded_len(raw@.len()),
    {
        base64_standard(raw.as_slice())
    }

    /// Adding icons is not supported yet: the store is left as it is.
    pub fn add_icon(&mut self)
        ensures
            final(self).entries() == old(self).entries(),
            final(self).store_path() == old(self).store_path(),
    {
    }

    /// The names of the icons, in order; no name occurs twice, and they are
    /// exactly the names of the icons.
    pub fn keys(&self) -> (r: Vec<String>)
        ensures
            r@.map_values(|s: String| s@) == keys_of(self.entries()),
            views(r@).no_duplicates(),
            forall|k: Seq<char>| #[trigger] views(r@).contains(k) <==> self.icons().contains_key(k),
    {
        self.icons.keys()
    }
}

} // verus!
