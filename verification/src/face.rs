//! Reading parsed font faces.
//!
//! Font files are parsed by `ttf_parser`, outside this library: on a
//! malformed file the parser may panic where it is built with debug
//! assertions, and nothing here panics. So a face comes in parsed. What is
//! read of it here, its names, weight, style and width class, is read by
//! calls that look values up in tables already found, and each answer has a
//! name, over which the functions of this module say what they return.
//! Nothing is claimed about what the names are for a given face.
//!
//! What else is read of a face, its metrics, its glyphs and their advances,
//! is read by whoever parsed it, and comes in as plain values.

use crate::font_db::Style;
use crate::text::opt_view;
use vstd::prelude::*;

verus! {

/// Identifier of the family name among the names of a face.
pub const FAMILY: u16 = 1;

/// Identifier of the PostScript name among the names of a face.
pub const POST_SCRIPT_NAME: u16 = 6;

/// A parsed font face, borrowed from the bytes it was parsed from.
#[verifier::external_type_specification]
#[verifier::external_body]
pub struct ExFace<'a>(ttf_parser::Face<'a>);

/// Why a font file could not be parsed into a face.
#[derive(Clone, Copy, Debug, PartialEq, Eq, Structural)]
pub enum FaceError {
    MalformedFont,
    UnknownMagic,
    FaceIndexOutOfBounds,
    NoHeadTable,
    NoHheaTable,
    NoMaxpTable,
}

/// One entry of the naming table of a face.
#[derive(Debug, PartialEq, Eq)]
pub struct NameEntry {
    /// What the entry names: family, PostScript name, and so on.
    pub name_id: u16,
    /// Whether the entry is stored in a Unicode encoding.
    pub unicode: bool,
    /// The name itself, where it could be decoded.
    pub text: Option<String>,
}

/// What a [`NameEntry`] holds, as mathematical values.
pub struct NameEntryView {
    pub name_id: u16,
    pub unicode: bool,
    pub text: Option<Seq<char>>,
}

impl View for NameEntry {
    type V = NameEntryView;

    open spec fn view(&self) -> NameEntryView {
        NameEntryView {
            name_id: self.name_id,
            unicode: self.unicode,
            text: opt_view(self.text),
        }
    }
}

/// Position and thickness of the underline, in font units.
#[derive(Clone, Copy, Debug, PartialEq, Eq, Structural)]
pub struct LineMetrics {
    pub position: i16,
    pub thickness: i16,
}

/// Weight of a face, as a number.
pub uninterp spec fn weight_of(face: ttf_parser::Face<'_>) -> u16;

/// Style of a face.
pub uninterp spec fn style_of(face: ttf_parser::Face<'_>) -> Style;

/// Width class of a face, as a number.
pub uninterp spec fn width_of(face: ttf_parser::Face<'_>) -> u16;

/// Number of records in the naming table of a face.
pub uninterp spec fn name_count_of(face: ttf_parser::Face<'_>) -> u16;

/// Entry `i` of the naming table of a face, where it can be read.
pub uninterp spec fn name_of(face: ttf_parser::Face<'_>, i: u16) -> Option<NameEntryView>;

/// Weight of a face, as a number.
///
/// Wraps `ttf_parser::Face::weight`, read through `Weight::to_number`.
#[verifier::external_body]
pub(crate) fn weight(face: &ttf_parser::Face<'_>) -> (r: u16)
    ensures
        r == weight_of(*face),
{
    face.weight().to_number()
}

/// Style of a face. Wraps `ttf_parser::Face::style`.
#[verifier::external_body]
pub(crate) fn style(face: &ttf_parser::Face<'_>) -> (r: Style)
    ensures
        r == style_of(*face),
{
    match face.style() {
        ttf_parser::Style::Normal => Style::Normal,
        ttf_parser::Style::Italic => Style::Italic,
        ttf_parser::Style::Oblique => Style::Oblique,
    }
}

/// Width class of a face, as a number.
///
/// Wraps `ttf_parser::Face::width`, read through `Width::to_number`.
#[verifier::external_body]
pub(crate) fn width(face: &ttf_parser::Face<'_>) -> (r: u16)
    ensures
        r == width_of(*face),
{
    face.width().to_number()
}

/// Number of records in the naming table of a face.
///
/// Wraps `ttf_parser::name::Names::len` on `ttf_parser::Face::names`.
#[verifier::external_body]
pub(crate) fn name_count(face: &ttf_parser::Face<'_>) -> (r: u16)
    ensures
        r == name_count_of(*face),
{
    face.names().len()
}

/// Entry `i` of the naming table of a face.
///
/// Wraps `ttf_parser::name::Names::get` on `ttf_parser::Face::names`; the
/// entry's identifier, `Name::is_unicode` and `Name::to_string` are copied
/// into a [`NameEntry`].
#[verifier::external_body]
pub(crate) fn name_at(face: &ttf_parser::Face<'_>, i: u16) -> (r: Option<NameEntry>)
    ensures
        r is Some <==> name_of(*face, i) is Some,
        r is Some ==> r->0@ == name_of(*face, i)->0,
{
    match face.names().get(i) {
        Some(n) => Some(
            NameEntry { name_id: n.name_id, unicode: n.is_unicode(), text: n.to_string() },
        ),
        None => None,
    }
}

/// The entries of a naming table as an iteration over it yields them: entry
/// by entry, up to `count`, stopping short at the first that cannot be read.
pub open spec fn names_from(face: ttf_parser::Face<'_>, from: int, count: int) -> Seq<
    NameEntryView,
>
    decreases count - from,
{
    if 0 <= from < count && from <= u16::MAX && name_of(face, from as u16) is Some {
        seq![name_of(face, from as u16)->0] + names_from(face, from + 1, count)
    } else {
        Seq::empty()
    }
}

/// The names of a face, in the order of its naming table.
pub open spec fn names_of(face: ttf_parser::Face<'_>) -> Seq<NameEntryView> {
    names_from(face, 0, name_count_of(face) as int)
}

/// The views of a list of name entries.
pub open spec fn entry_views(names: Seq<NameEntry>) -> Seq<NameEntryView> {
    names.map_values(|e: NameEntry| e@)
}

/// The text of the first entry with the identifier `name_id` that is in a
/// Unicode encoding; nothing where there is no such entry, or where its text
/// could not be decoded.
pub open spec fn name_in(names: Seq<NameEntryView>, name_id: u16) -> Option<Seq<char>>
    decreases names.len(),
{
    if names.len() == 0 {
        None
    } else if names.first().name_id == name_id && names.first().unicode {
        names.first().text
    } else {
        name_in(names.drop_first(), name_id)
    }
}

/// The PostScript name of a face.
pub open spec fn post_script_name_of(face: ttf_parser::Face<'_>) -> Option<Seq<char>> {
    name_in(names_of(face), POST_SCRIPT_NAME)
}

/// The family name of a face.
pub open spec fn family_of(face: ttf_parser::Face<'_>) -> Option<Seq<char>> {
    name_in(names_of(face), FAMILY)
}

/// Reads the naming table of a face, as an iteration over it would.
pub fn names(face: &ttf_parser::Face<'_>) -> (r: Vec<NameEntry>)
    ensures
        entry_views(r@) == names_of(*face),
{
    let count = name_count(face);
    let mut r: Vec<NameEntry> = Vec::new();
    let mut i: u16 = 0;
    while i < count
        invariant
            i <= count,
            count == name_count_of(*face),
            names_of(*face) == entry_views(r@) + names_from(*face, i as int, count as int),
        decreases count - i,
    {
        match name_at(face, i) {
            Some(entry) => {
                let ghost before = r@;
                r.push(entry);
                assert(entry_views(r@) =~= entry_views(before) + seq![entry@]);
                i += 1;
            },
            None => {
                return r;
            },
        }
    }
    r
}

/// Picks a name among the names of a face: the text of the first entry
/// with the identifier `name_id` that is in a Unicode encoding.
pub fn find_name(names: &Vec<NameEntry>, name_id: u16) -> (r: Option<String>)
    ensures
        opt_view(r) == name_in(entry_views(names@), name_id),
{
    let mut i: usize = 0;
    assert(entry_views(names@).skip(0) =~= entry_views(names@));
    while i < names.len()
        invariant
            i <= names.len(),
            name_in(entry_views(names@), name_id) == name_in(
                entry_views(names@).skip(i as int),
                name_id,
            ),
        decreases names.len() - i,
    {
        let ghost rest = entry_views(names@).skip(i as int);
        assert(rest.first() == names@[i as int]@);
        assert(rest.drop_first() =~= entry_views(names@).skip(i + 1));
        if names[i].name_id == name_id && names[i].unicode {
            return match &names[i].text {
                Some(t) => Some(t.clone()),
                None => None,
            };
        }
        i += 1;
    }
    None
}

} // verus!
