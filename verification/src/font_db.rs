//! Font descriptors and the font database.
//!
//! The database answers two questions without touching the system: which
//! concrete family a requested name stands for, and what has to be asked of
//! the system font provider, or read from disk, to get the bytes of a
//! described font.

use crate::face::{
    family_of, find_name, names, post_script_name_of, style, style_of, weight, weight_of,
    width, width_of, FAMILY, POST_SCRIPT_NAME,
};
use crate::font::LispFontLike;
use crate::text::{
    lowercase_of, opt_view, str_eq, strip_suffix, to_lowercase, without_suffix,
};
use vstd::prelude::*;

verus! {

/// Weight at and above which a bold face is requested.
pub const BOLD_WEIGHT: u16 = 700;

/// The weight of a descriptor made of a font spec.
pub const DEFAULT_WEIGHT: u16 = 400;

/// The stretch of a descriptor made of a font spec.
pub const DEFAULT_STRETCH: u32 = 5;

/// The family of a font spec that names none.
pub const NIL_FAMILY: &'static str = "nil";

/// The suffix that a family name is freed of.
pub const REGULAR_SUFFIX: &'static str = " Regular";

/// The slant of a face.
#[derive(Clone, Copy, Debug, PartialEq, Eq, Structural, Hash)]
pub enum Style {
    Normal,
    Italic,
    Oblique,
}

/// The platforms whose generic families differ.
#[derive(Clone, Copy, Debug, PartialEq, Eq, Structural, Hash)]
pub enum Platform {
    MacOs,
    Other,
}

/// A description of a font, used as the key under which it is cached.
#[derive(Debug, Hash, PartialEq, Eq)]
pub enum FontDescriptor {
    Path { path: String, font_index: u32 },
    Family { name: String },
    Properties { family: String, weight: u16, style: Style, stretch: u32 },
}

/// What a [`FontDescriptor`] holds, as mathematical values.
pub enum FontDescriptorView {
    Path { path: Seq<char>, font_index: u32 },
    Family { name: Seq<char> },
    Properties { family: Seq<char>, weight: u16, style: Style, stretch: u32 },
}

impl View for FontDescriptor {
    type V = FontDescriptorView;

    open spec fn view(&self) -> FontDescriptorView {
        match *self {
            FontDescriptor::Path { path, font_index } => FontDescriptorView::Path {
                path: path@,
                font_index,
            },
            FontDescriptor::Family { name } => FontDescriptorView::Family { name: name@ },
            FontDescriptor::Properties {
                family,
                weight,
                style,
                stretch,
            } => FontDescriptorView::Properties { family: family@, weight, style, stretch },
        }
    }
}

impl Clone for FontDescriptor {
    fn clone(&self) -> (r: Self)
        ensures
            r@ == self@,
    {
        match self {
            FontDescriptor::Path { path, font_index } => FontDescriptor::Path {
                path: path.clone(),
                font_index: *font_index,
            },
            FontDescriptor::Family { name } => FontDescriptor::Family { name: name.clone() },
            FontDescriptor::Properties {
                family,
                weight,
                style,
                stretch,
            } => FontDescriptor::Properties {
                family: family.clone(),
                weight: *weight,
                style: *style,
                stretch: *stretch,
            },
        }
    }
}

/// The family that a font spec asks for: the one it names, or `nil`.
pub open spec fn spec_family(family: Option<Seq<char>>) -> Seq<char> {
    match family {
        Some(f) => f,
        None => NIL_FAMILY@,
    }
}

/// The descriptor of a font spec with the given family.
pub open spec fn descriptor_of(family: Option<Seq<char>>) -> FontDescriptorView {
    FontDescriptorView::Properties {
        family: without_suffix(spec_family(family), REGULAR_SUFFIX@),
        weight: DEFAULT_WEIGHT,
        style: Style::Normal,
        stretch: DEFAULT_STRETCH,
    }
}

impl FontDescriptor {
    /// The descriptor of a font spec: its family, freed of a trailing
    /// " Regular", at normal weight, style and stretch.
    pub fn from_font_spec(font_spec: &LispFontLike) -> (r: FontDescriptor)
        ensures
            r@ == descriptor_of(font_spec@.family),
    {
        let family = match &font_spec.family {
            Some(f) => strip_suffix(f.as_str(), REGULAR_SUFFIX),
            None => strip_suffix(NIL_FAMILY, REGULAR_SUFFIX),
        };
        FontDescriptor::Properties {
            family,
            weight: DEFAULT_WEIGHT,
            style: Style::Normal,
            stretch: DEFAULT_STRETCH,
        }
    }

    /// Whether two descriptors describe the same font.
    pub fn same(&self, other: &FontDescriptor) -> (r: bool)
        ensures
            r == (self@ == other@),
    {
        match (self, other) {
            (
                FontDescriptor::Path { path: p, font_index: i },
                FontDescriptor::Path { path: q, font_index: j },
            ) => *i == *j && str_eq(p.as_str(), q.as_str()),
            (FontDescriptor::Family { name: a }, FontDescriptor::Family { name: b }) => str_eq(
                a.as_str(),
                b.as_str(),
            ),
            (
                FontDescriptor::Properties { family: a, weight: w, style: s, stretch: t },
                FontDescriptor::Properties { family: b, weight: x, style: y, stretch: u },
            ) => *w == *x && *s == *y && *t == *u && str_eq(a.as_str(), b.as_str()),
            _ => false,
        }
    }
}

/// What is asked of the system font provider.
#[derive(Debug, PartialEq, Eq)]
pub struct FontProperty {
    /// The concrete family to look for.
    pub family: String,
    /// Whether a bold face is asked for.
    pub bold: bool,
    /// The slant asked for.
    pub slant: Style,
}

/// Where the bytes of a described font come from.
#[derive(Debug, PartialEq, Eq)]
pub enum FontRequest {
    /// The font file at `path`, read whole; the face is number `font_index`.
    File { path: String, font_index: u32 },
    /// The system font provider's best match for the property.
    System(FontProperty),
}

/// [`FontProperty`] as mathematical values.
pub struct FontPropertyView {
    pub family: Seq<char>,
    pub bold: bool,
    pub slant: Style,
}

/// [`FontRequest`] as mathematical values.
pub enum FontRequestView {
    File { path: Seq<char>, font_index: u32 },
    System(FontPropertyView),
}

impl View for FontProperty {
    type V = FontPropertyView;

    open spec fn view(&self) -> FontPropertyView {
        FontPropertyView { family: self.family@, bold: self.bold, slant: self.slant }
    }
}

impl View for FontRequest {
    type V = FontRequestView;

    open spec fn view(&self) -> FontRequestView {
        match *self {
            FontRequest::File { path, font_index } => FontRequestView::File {
                path: path@,
                font_index,
            },
            FontRequest::System(property) => FontRequestView::System(property@),
        }
    }
}

/// One installed face, as the database records it.
#[derive(Debug, PartialEq, Eq)]
pub struct FaceRecord {
    pub family: String,
    pub post_script_name: String,
    pub weight: u16,
    pub style: Style,
    pub stretch: u32,
    /// Where the bytes of the face come from.
    pub source: FontRequest,
}

/// [`FaceRecord`] as mathematical values.
pub struct FaceRecordView {
    pub family: Seq<char>,
    pub post_script_name: Seq<char>,
    pub weight: u16,
    pub style: Style,
    pub stretch: u32,
    pub source: FontRequestView,
}

impl View for FaceRecord {
    type V = FaceRecordView;

    open spec fn view(&self) -> FaceRecordView {
        FaceRecordView {
            family: self.family@,
            post_script_name: self.post_script_name@,
            weight: self.weight,
            style: self.style,
            stretch: self.stretch,
            source: self.source@,
        }
    }
}

/// The record of a face whose bytes come from `source`: its family,
/// PostScript name, weight, style and width class. A face without a family
/// or without a PostScript name has no record.
pub open spec fn record_of(face: ttf_parser::Face<'_>, source: FontRequestView) -> Option<
    FaceRecordView,
> {
    if family_of(face) is Some && post_script_name_of(face) is Some {
        Some(
            FaceRecordView {
                family: family_of(face)->0,
                post_script_name: post_script_name_of(face)->0,
                weight: weight_of(face),
                style: style_of(face),
                stretch: width_of(face) as u32,
                source,
            },
        )
    } else {
        None
    }
}

impl FaceRecord {
    /// Reads the record of an installed face, whose bytes come from
    /// `source`.
    pub fn from_face(face: &ttf_parser::Face<'_>, source: FontRequest) -> (r: Option<FaceRecord>)
        ensures
            match record_of(*face, source@) {
                Some(record) => r is Some && r->0@ == record,
                None => r is None,
            },
    {
        let all_names = names(face);
        let family = match find_name(&all_names, FAMILY) {
            Some(family) => family,
            None => {
                return None;
            },
        };
        let post_script_name = match find_name(&all_names, POST_SCRIPT_NAME) {
            Some(name) => name,
            None => {
                return None;
            },
        };
        Some(
            FaceRecord {
                family,
                post_script_name,
                weight: weight(face),
                style: style(face),
                stretch: width(face) as u32,
                source,
            },
        )
    }
}

/// The concrete family that a generic keyword stands for on `platform`,
/// where `lowered` is such a keyword.
pub open spec fn generic_family(platform: Platform, lowered: Seq<char>) -> Option<Seq<char>> {
    if lowered == "serif"@ {
        Some("Times New Roman"@)
    } else if lowered == "sans-serif"@ || lowered == "sans serif"@ {
        Some("Arial"@)
    } else if lowered == "monospace"@ {
        Some("Courier New"@)
    } else if lowered == "cursive"@ {
        Some("Comic Sans MS"@)
    } else if lowered == "fantasy"@ {
        Some(
            match platform {
                Platform::MacOs => "Papyrus"@,
                Platform::Other => "Impact"@,
            },
        )
    } else {
        None
    }
}

/// The family that `name` is resolved to when `lowered` is its lower-case
/// form: the concrete family of a generic keyword, any other name unchanged.
pub open spec fn family_for(platform: Platform, lowered: Seq<char>, name: Seq<char>) -> Seq<char> {
    match generic_family(platform, lowered) {
        Some(family) => family,
        None => name,
    }
}

/// The family that `name` is normalized to on `platform`.
pub open spec fn normalized_family(platform: Platform, name: Seq<char>) -> Seq<char> {
    family_for(platform, lowercase_of(name), name)
}

/// What is asked of the provider for a family alone: the normalized family,
/// not bold, not slanted.
pub open spec fn name_property(platform: Platform, family: Seq<char>) -> FontPropertyView {
    FontPropertyView {
        family: normalized_family(platform, family),
        bold: false,
        slant: Style::Normal,
    }
}

/// What is asked of the provider for a family, a weight and a style: the
/// normalized family, bold from a weight of 700, and the style as slant.
pub open spec fn properties_property(
    platform: Platform,
    family: Seq<char>,
    weight: u16,
    style: Style,
) -> FontPropertyView {
    FontPropertyView {
        family: normalized_family(platform, family),
        bold: weight >= BOLD_WEIGHT,
        slant: style,
    }
}

/// Where the bytes of a described font come from.
pub open spec fn request_of(platform: Platform, desc: FontDescriptorView) -> FontRequestView {
    match desc {
        FontDescriptorView::Path { path, font_index } => FontRequestView::File { path, font_index },
        FontDescriptorView::Family { name } => FontRequestView::System(
            name_property(platform, name),
        ),
        FontDescriptorView::Properties { family, weight, style, stretch } => {
            FontRequestView::System(properties_property(platform, family, weight, style))
        },
    }
}

/// The family of the first face with the given PostScript name.
pub open spec fn family_with_post_script_name(
    faces: Seq<FaceRecord>,
    post_script_name: Seq<char>,
) -> Option<Seq<char>>
    decreases faces.len(),
{
    if faces.len() == 0 {
        None
    } else if faces.first().post_script_name@ == post_script_name {
        Some(faces.first().family@)
    } else {
        family_with_post_script_name(faces.drop_first(), post_script_name)
    }
}

/// The true family of a face: the family that the database records for
/// the PostScript name of that face.
pub open spec fn true_family(faces: Seq<FaceRecord>, face: Option<&ttf_parser::Face<'_>>) -> Option<
    Seq<char>,
> {
    match face {
        Some(face) => match post_script_name_of(*face) {
            Some(name) => family_with_post_script_name(faces, name),
            None => None,
        },
        None => None,
    }
}

/// The font database: the platform's table of generic families, and the
/// installed faces it was built with.
pub struct FontDB {
    platform: Platform,
    faces: Vec<FaceRecord>,
}

impl FontDB {
    /// The platform whose generic families the database uses.
    pub closed spec fn platform(&self) -> Platform {
        self.platform
    }

    /// The faces the database was built with, in order.
    pub closed spec fn faces(&self) -> Seq<FaceRecord> {
        self.faces@
    }

    /// A database for `platform` that knows the installed `faces`.
    pub fn new(platform: Platform, faces: Vec<FaceRecord>) -> (db: FontDB)
        ensures
            db.platform() == platform,
            db.faces() == faces@,
    {
        FontDB { platform, faces }
    }

    /// Resolves `family_name`, whose lower-case form is `lowered`: a generic
    /// keyword gives the platform's concrete family, any other name is kept.
    pub fn family_for_keyword(platform: Platform, lowered: &str, family_name: &str) -> (r: String)
        ensures
            r@ == family_for(platform, lowered@, family_name@),
    {
        if str_eq(lowered, "serif") {
            "Times New Roman".to_owned()
        } else if str_eq(lowered, "sans-serif") || str_eq(lowered, "sans serif") {
            "Arial".to_owned()
        } else if str_eq(lowered, "monospace") {
            "Courier New".to_owned()
        } else if str_eq(lowered, "cursive") {
            "Comic Sans MS".to_owned()
        } else if str_eq(lowered, "fantasy") {
            match platform {
                Platform::MacOs => "Papyrus".to_owned(),
                Platform::Other => "Impact".to_owned(),
            }
        } else {
            family_name.to_owned()
        }
    }

    /// Maps a generic family keyword, in any letter case, to the platform's
    /// concrete family; any other name comes back unchanged.
    pub fn normalize_family_name(&self, family_name: &str) -> (r: String)
        ensures
            r@ == normalized_family(self.platform(), family_name@),
    {
        let lowered = to_lowercase(family_name);
        Self::family_for_keyword(self.platform, lowered.as_str(), family_name)
    }

    /// What to do to get the bytes of a described font: read a file, or ask
    /// the system font provider.
    pub fn data_from_desc(&self, desc: &FontDescriptor) -> (r: FontRequest)
        ensures
            r@ == request_of(self.platform(), desc@),
    {
        match desc {
            FontDescriptor::Path { path, font_index } => FontRequest::File {
                path: path.clone(),
                font_index: *font_index,
            },
            FontDescriptor::Family { name } => FontRequest::System(
                self.data_from_name(name.as_str()),
            ),
            FontDescriptor::Properties {
                family,
                weight,
                style,
                stretch: _,
            } => FontRequest::System(self.data_from_properties(family.as_str(), *weight, *style)),
        }
    }

    /// What to ask of the system font provider for a family name.
    pub fn data_from_name(&self, family_name: &str) -> (r: FontProperty)
        ensures
            r@ == name_property(self.platform(), family_name@),
    {
        FontProperty {
            family: self.normalize_family_name(family_name),
            bold: false,
            slant: Style::Normal,
        }
    }

    /// What to ask of the system font provider for a family name, a weight
    /// and a style.
    pub fn data_from_properties(&self, family_name: &str, weight: u16, style: Style) -> (r:
        FontProperty)
        ensures
            r@ == properties_property(self.platform(), family_name@, weight, style),
    {
        FontProperty {
            family: self.normalize_family_name(family_name),
            bold: weight >= BOLD_WEIGHT,
            slant: style,
        }
    }

    /// The family that the database records for a PostScript name: that of
    /// the first face with this name.
    pub fn family_by_post_script_name(&self, post_script_name: &str) -> (r: Option<String>)
        ensures
            opt_view(r) == family_with_post_script_name(
                self.faces(),
                post_script_name@,
            ),
    {
        let mut i: usize = 0;
        assert(self.faces@.skip(0) =~= self.faces@);
        while i < self.faces.len()
            invariant
                i <= self.faces.len(),
                family_with_post_script_name(self.faces@, post_script_name@)
                    == family_with_post_script_name(
                    self.faces@.skip(i as int),
                    post_script_name@,
                ),
            decreases self.faces.len() - i,
        {
            assert(self.faces@.skip(i as int).drop_first() =~= self.faces@.skip(i + 1));
            if str_eq(self.faces[i].post_script_name.as_str(), post_script_name) {
                return Some(self.faces[i].family.clone());
            }
            i += 1;
        }
        None
    }

    /// Resolves a logical family name to the true family of the installed
    /// face that matches it best. `best_match` is the face of the font
    /// file that the system font provider gave for the logical name, where
    /// it gave one that could be parsed; its PostScript name is looked up
    /// among the faces of the database.
    pub fn true_family_name(&self, best_match: Option<&ttf_parser::Face<'_>>) -> (r: Option<
        String,
    >)
        ensures
            opt_view(r) == true_family(self.faces(), best_match),
    {
        let face = match best_match {
            Some(face) => face,
            None => {
                return None;
            },
        };
        let all_names = names(face);
        match find_name(&all_names, POST_SCRIPT_NAME) {
            Some(name) => self.family_by_post_script_name(name.as_str()),
            None => None,
        }
    }
}

/// The two spellings of the sans-serif keyword stand for one family: two
/// names whose lower-case forms are `sans-serif` and `sans serif` are
/// normalized to the same family, on either platform.
pub proof fn lemma_sans_serif_spellings(platform: Platform, hyphened: Seq<char>, spaced: Seq<char>)
    requires
        lowercase_of(hyphened) == "sans-serif"@,
        lowercase_of(spaced) == "sans serif"@,
    ensures
        normalized_family(platform, hyphened) == normalized_family(platform, spaced),
        normalized_family(platform, hyphened) == "Arial"@,
{
    reveal_strlit("sans-serif");
    reveal_strlit("sans serif");
    reveal_strlit("serif");
    assert("sans-serif"@.len() != "serif"@.len());
    assert("sans serif"@.len() != "serif"@.len());
}

/// A name that is no generic keyword passes through unchanged: where the
/// lower-case form of a name is none of the keywords, the name is
/// normalized to itself.
pub proof fn lemma_unrecognized_family_unchanged(platform: Platform, name: Seq<char>)
    requires
        lowercase_of(name) != "serif"@,
        lowercase_of(name) != "sans-serif"@,
        lowercase_of(name) != "sans serif"@,
        lowercase_of(name) != "monospace"@,
        lowercase_of(name) != "cursive"@,
        lowercase_of(name) != "fantasy"@,
    ensures
        normalized_family(platform, name) == name,
{
}

} // verus!
