use vstd::prelude::*;
use vstd::string::*;

use crate::error::ToolError;

verus! {

/// One application as the lookup service lists it: its bundle identifier
/// and its container path, when the entry carries one as a string.
#[derive(Debug)]
pub struct InventoryEntry {
    pub bundle_identifier: String,
    pub container: Option<String>,
}

/// What the JIT enabler needs to know of an installed application.
#[derive(Debug)]
pub struct ApplicationRecord {
    pub bundle_identifier: String,
    pub container_path: String,
    pub bundle_path: String,
}

pub open spec fn opt_view(o: Option<String>) -> Option<Seq<char>> {
    match o {
        Some(s) => Some(s@),
        None => None,
    }
}

/// The container field of the first entry listed under `id`: `None` when no
/// entry is listed under it, `Some(None)` when that entry has no container.
pub open spec fn listed_container(inv: Seq<InventoryEntry>, id: Seq<char>) -> Option<
    Option<Seq<char>>,
>
    decreases inv.len(),
{
    if inv.len() == 0 {
        None
    } else if inv[0].bundle_identifier@ == id {
        Some(opt_view(inv[0].container))
    } else {
        listed_container(inv.drop_first(), id)
    }
}

/// Some entry of the inventory is listed under `id`.
pub open spec fn is_listed(inv: Seq<InventoryEntry>, id: Seq<char>) -> bool {
    exists|i: int| 0 <= i < inv.len() && #[trigger] inv[i].bundle_identifier@ == id
}

/// An identifier is found by the lookup exactly when some entry is listed under it.
pub proof fn lemma_listed_iff_found(inv: Seq<InventoryEntry>, id: Seq<char>)
    ensures
        listed_container(inv, id) is Some <==> is_listed(inv, id),
    decreases inv.len(),
{
    if inv.len() > 0 {
        lemma_listed_iff_found(inv.drop_first(), id);
        if is_listed(inv, id) && inv[0].bundle_identifier@ != id {
            let i = choose|i: int| 0 <= i < inv.len() && #[trigger] inv[i].bundle_identifier@ == id;
            assert(inv.drop_first()[i - 1].bundle_identifier@ == id);
        }
        if is_listed(inv.drop_first(), id) {
            let j = choose|j: int|
                0 <= j < inv.drop_first().len() && #[trigger] inv.drop_first()[j].bundle_identifier@
                    == id;
            assert(inv[j + 1].bundle_identifier@ == id);
        }
    }
}

/// The attribute filter of the inventory query: applications of any type.
pub fn lookup_filter() -> (r: Vec<(String, String)>)
    ensures
        r@.len() == 1,
        r@[0].0@ == "ApplicationType"@,
        r@[0].1@ == "Any"@,
{
    let mut r: Vec<(String, String)> = Vec::new();
    r.push((String::from_str("ApplicationType"), String::from_str("Any")));
    r
}

/// The attributes that the inventory query asks to have returned.
pub open spec fn lookup_attributes_spec() -> Seq<Seq<char>> {
    seq![
        "CFBundleIdentifier"@,
        "CFBundleExecutable"@,
        "CFBundlePath"@,
        "BundlePath"@,
        "Container"@,
    ]
}

/// The attributes that the inventory query asks to have returned.
pub fn lookup_attributes() -> (r: Vec<String>)
    ensures
        r@.map_values(|s: String| s@) == lookup_attributes_spec(),
{
    let mut r: Vec<String> = Vec::new();
    r.push(String::from_str("CFBundleIdentifier"));
    r.push(String::from_str("CFBundleExecutable"));
    r.push(String::from_str("CFBundlePath"));
    r.push(String::from_str("BundlePath"));
    r.push(String::from_str("Container"));
    assert(r@.map_values(|s: String| s@) =~= lookup_attributes_spec());
    r
}

/// The container path of the application listed under `id`; `NotInstalled`
/// when no entry is listed under it or that entry has no container path.
pub fn find_container(inv: &Vec<InventoryEntry>, id: &String) -> (r: Result<String, ToolError>)
    ensures
        match listed_container(inv@, id@) {
            Some(Some(c)) => r is Ok && r->Ok_0@ == c,
            _ => r == Err::<String, ToolError>(ToolError::NotInstalled),
        },
{
    let mut i: usize = 0;
    assert(inv@.subrange(0, inv@.len() as int) =~= inv@);
    while i < inv.len()
        invariant
            i <= inv@.len(),
            listed_container(inv@, id@) == listed_container(inv@.subrange(i as int, inv@.len() as int), id@),
        decreases inv.len() - i,
    {
        let ghost rest = inv@.subrange(i as int, inv@.len() as int);
        assert(rest.drop_first() =~= inv@.subrange(i + 1, inv@.len() as int));
        if inv[i].bundle_identifier == *id {
            return match &inv[i].container {
                Some(c) => Ok(c.clone()),
                None => Err(ToolError::NotInstalled),
            };
        }
        i = i + 1;
    }
    Err(ToolError::NotInstalled)
}

} // verus!
