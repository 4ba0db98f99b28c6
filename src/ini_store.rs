//! The sectioned key-value store, held in an `ini::Ini`, and what its lookups see.

use vstd::prelude::*;
use ini::Ini;
use crate::text::{is_space, opt_text};

verus! {

/// Declares ini::Ini, the sectioned store, as an opaque type; its contents are
/// seen only through `ini_view`.
#[verifier::external_type_specification]
#[verifier::external_body]
pub struct ExIni(ini::Ini);

/// What an `Ini` holds as its lookups read it: each section name (`None` for the
/// general section) to the first section of that name, and there each key to its
/// first value.
pub uninterp spec fn ini_view(ini: Ini) -> Map<Option<Seq<char>>, Map<Seq<char>, Seq<char>>>;

/// What parsing `text` as INI gives, if it parses.
pub uninterp spec fn parsed_ini(text: Seq<char>) -> Option<Map<Option<Seq<char>>, Map<Seq<char>, Seq<char>>>>;

/// The section names of a store in order of first appearance, each once.
pub uninterp spec fn ini_order(ini: Ini) -> Seq<Option<Seq<char>>>;

/// The section order of the store that parsing `text` gives.
pub uninterp spec fn parsed_order(text: Seq<char>) -> Seq<Option<Seq<char>>>;

/// The order after a section name is used: a new name goes last.
pub open spec fn order_after_use(
    v: Map<Option<Seq<char>>, Map<Seq<char>, Seq<char>>>,
    order: Seq<Option<Seq<char>>>,
    section: Seq<char>,
) -> Seq<Option<Seq<char>>> {
    if v.contains_key(Some(section)) { order } else { order.push(Some(section)) }
}

/// No section name occurs twice in the store, and no key twice in a section, so
/// the view shows all that the store holds.
pub uninterp spec fn ini_single(ini: Ini) -> bool;

/// The view of a store that holds only an empty general section.
pub open spec fn fresh_view() -> Map<Option<Seq<char>>, Map<Seq<char>, Seq<char>>> {
    Map::empty().insert(None, Map::empty())
}

/// The view after `key` of section `section` is set to `value`.
pub open spec fn view_set(
    v: Map<Option<Seq<char>>, Map<Seq<char>, Seq<char>>>,
    section: Seq<char>,
    key: Seq<char>,
    value: Seq<char>,
) -> Map<Option<Seq<char>>, Map<Seq<char>, Seq<char>>> {
    let old_section = if v.contains_key(Some(section)) { v[Some(section)] } else { Map::empty() };
    v.insert(Some(section), old_section.insert(key, value))
}

/// The value of `key` in section `section`, if both exist.
pub open spec fn view_get(
    v: Map<Option<Seq<char>>, Map<Seq<char>, Seq<char>>>,
    section: Seq<char>,
    key: Seq<char>,
) -> Option<Seq<char>> {
    if v.contains_key(Some(section)) && v[Some(section)].contains_key(key) {
        Some(v[Some(section)][key])
    } else {
        None
    }
}

/// `c` is written as itself and read back as itself: not a control character
/// and not a backslash, the only characters that the writer escapes.
pub open spec fn unescaped_char(c: char) -> bool {
    ' ' <= c && c != '\u{7f}' && c != '\\'
}

/// `s` has unescaped characters only and no white space at either end, which the
/// reader trims.
pub open spec fn bare_text(s: Seq<char>) -> bool {
    &&& forall|i: int| 0 <= i < s.len() ==> unescaped_char(#[trigger] s[i])
    &&& s.len() > 0 ==> !is_space(s[0]) && !is_space(s[s.len() - 1])
}

/// A section name that reads back from its `[name]` header.
pub open spec fn plain_section(s: Seq<char>) -> bool {
    &&& s.len() > 0
    &&& bare_text(s)
    &&& forall|i: int| 0 <= i < s.len() ==> #[trigger] s[i] != ']'
}

/// A key that reads back from its `key=value` line: no separator or quote in it,
/// and not starting like a header or a comment.
pub open spec fn plain_key(k: Seq<char>) -> bool {
    &&& k.len() > 0
    &&& bare_text(k)
    &&& forall|i: int| 0 <= i < k.len() ==> #[trigger] k[i] != '=' && k[i] != ':' && k[i] != '"' && k[i] != '\''
    &&& k[0] != '[' && k[0] != ';' && k[0] != '#'
}

/// A value that reads back from its `key=value` line: not starting with a quote.
pub open spec fn plain_value(v: Seq<char>) -> bool {
    &&& bare_text(v)
    &&& v.len() > 0 ==> v[0] != '"' && v[0] != '\''
}

/// Every section name, key and value of the view survives a write and a read,
/// and the general section exists and is empty.
pub open spec fn plain(v: Map<Option<Seq<char>>, Map<Seq<char>, Seq<char>>>) -> bool {
    &&& v.contains_key(None)
    &&& v[None] == Map::<Seq<char>, Seq<char>>::empty()
    &&& forall|n: Option<Seq<char>>| #[trigger] v.contains_key(n) && n is Some ==> plain_section(n.unwrap())
    &&& forall|n: Option<Seq<char>>, k: Seq<char>| v.contains_key(n) && #[trigger] v[n].contains_key(k)
        ==> plain_key(k) && plain_value(v[n][k])
}

/// Relies on ini::Ini::new: a store with one empty general section.
#[verifier::external_body]
pub(crate) fn new_ini() -> (r: Ini)
    ensures
        ini_view(r) == fresh_view(),
        ini_single(r),
        ini_order(r) == seq![None::<Seq<char>>],
{
    Ini::new()
}

/// Relies on ini::Ini::load_from_str: the parsed store, or a parse failure.
#[verifier::external_body]
pub(crate) fn parse_ini(text: &str) -> (r: Option<Ini>)
    ensures
        r.is_some() == parsed_ini(text@).is_some(),
        r matches Some(ini) ==> parsed_ini(text@) == Some(ini_view(ini)) && parsed_order(text@) == ini_order(ini),
{
    Ini::load_from_str(text).ok()
}

/// Relies on ini::Ini::get_from: the first value of `key` in the first section named `section`.
#[verifier::external_body]
pub(crate) fn ini_get(ini: &Ini, section: &str, key: &str) -> (r: Option<String>)
    ensures
        opt_text(r) == view_get(ini_view(*ini), section@, key@),
{
    ini.get_from(Some(section), key).map(|v| v.to_string())
}

/// Relies on ini::Ini::section: whether a section of that name exists.
#[verifier::external_body]
pub(crate) fn ini_has_section(ini: &Ini, section: &str) -> (r: bool)
    ensures
        r == ini_view(*ini).contains_key(Some(section@)),
{
    ini.section(Some(section)).is_some()
}

/// Relies on ini::Ini::set_to: creates the section if needed, then replaces every
/// value of `key` in its first occurrence with `value`.
#[verifier::external_body]
pub(crate) fn ini_set(ini: &mut Ini, section: &str, key: &str, value: &str)
    ensures
        ini_view(*final(ini)) == view_set(ini_view(*old(ini)), section@, key@, value@),
        ini_single(*old(ini)) ==> ini_single(*final(ini)),
        ini_order(*final(ini)) == order_after_use(ini_view(*old(ini)), ini_order(*old(ini)), section@),
{
    ini.set_to(Some(section), key.to_string(), value.to_string())
}

/// Relies on ini::Ini::delete: removes every section of that name.
#[verifier::external_body]
pub(crate) fn ini_delete(ini: &mut Ini, section: &str)
    ensures
        ini_view(*final(ini)) == ini_view(*old(ini)).remove(Some(section@)),
        ini_single(*old(ini)) ==> ini_single(*final(ini)),
{
    ini.delete(Some(section));
}

/// Relies on ini::Ini::entry and SectionEntry::or_insert: adds an empty section of
/// that name when there is none, and leaves the store alone otherwise.
#[verifier::external_body]
pub(crate) fn ini_add_section(ini: &mut Ini, section: &str)
    ensures
        ini_view(*final(ini)) == if ini_view(*old(ini)).contains_key(Some(section@)) {
            ini_view(*old(ini))
        } else {
            ini_view(*old(ini)).insert(Some(section@), Map::empty())
        },
        ini_single(*old(ini)) ==> ini_single(*final(ini)),
        ini_order(*final(ini)) == order_after_use(ini_view(*old(ini)), ini_order(*old(ini)), section@),
{
    ini.entry(Some(section.to_string())).or_insert(Default::default());
}

/// Relies on ini::Ini::section and ini::Properties::iter: the keys of the first
/// section of that name, a repeated key once for each of its values; none when
/// there is no such section.
#[verifier::external_body]
pub(crate) fn ini_keys(ini: &Ini, section: &str) -> (r: Vec<String>)
    ensures
        forall|i: int| 0 <= i < r@.len() ==> ini_view(*ini).contains_key(Some(section@))
            && ini_view(*ini)[Some(section@)].contains_key(#[trigger] r@[i]@),
        forall|k: Seq<char>| ini_view(*ini).contains_key(Some(section@))
            && #[trigger] ini_view(*ini)[Some(section@)].contains_key(k) ==> exists|i: int| 0 <= i < r@.len() && r@[i]@ == k,
{
    ini.section(Some(section)).map(|p| p.iter().map(|(k, _)| k.to_string()).collect()).unwrap_or_default()
}

/// Relies on ini::Ini::sections: each section name once, in order of first appearance.
#[verifier::external_body]
pub(crate) fn ini_section_names(ini: &Ini) -> (r: Vec<Option<String>>)
    ensures
        r@.map_values(|n: Option<String>| opt_text(n)) == ini_order(*ini),
        forall|i: int| 0 <= i < r@.len() ==> ini_view(*ini).contains_key(#[trigger] opt_text(r@[i])),
        forall|n: Option<Seq<char>>| #[trigger] ini_view(*ini).contains_key(n)
            ==> exists|i: int| 0 <= i < r@.len() && opt_text(r@[i]) == n,
        forall|i: int, j: int| 0 <= i < j < r@.len() ==> opt_text(r@[i]) != opt_text(r@[j]),
{
    ini.sections().map(|s| s.map(|n| n.to_string())).collect()
}

/// Relies on ini::Ini::write_to (escaping only backslashes and control characters,
/// one `key=value` line per value, a `[name]` header for each named section) and on
/// ini::Ini::load_from_str, which reads such text back: a store without repeated
/// sections or keys whose view is plain parses back to the same view, and, when the
/// general section comes first, to the same section order.
#[verifier::external_body]
pub(crate) fn ini_text(ini: &Ini) -> (r: String)
    ensures
        ini_single(*ini) && plain(ini_view(*ini)) ==> parsed_ini(r@) == Some(ini_view(*ini)),
        ini_single(*ini) && plain(ini_view(*ini)) && ini_order(*ini).len() > 0 && ini_order(*ini)[0] is None
            ==> parsed_order(r@) == ini_order(*ini),
{
    let mut buf: Vec<u8> = Vec::new();
    let _ = ini.write_to(&mut buf);
    String::from_utf8(buf).unwrap_or_default()
}

} // verus!
