//! The font driver: matching font specs against installed faces, opening
//! fonts, and answering glyph queries on opened fonts.
//!
//! Font files are loaded and parsed outside; see [`crate::face`]. Matching
//! takes the parsed faces, opening takes what was read of the face, and the
//! glyph queries take what the face answered.

use crate::cache::FontInstanceKey;
use crate::face::{
    find_name, names, post_script_name_of, style, style_of, weight, weight_of, FaceError,
    LineMetrics, POST_SCRIPT_NAME,
};
use crate::font_db::{
    descriptor_of, normalized_family, request_of, FontDB, FontDescriptor, FontRequest,
    FontRequestView, Platform, Style,
};
use crate::scale::{
    clamp_i32, glyph_size, glyph_size_of, lemma_round_div_bound, lemma_round_div_sign,
    lemma_round_div_sum, round_div, scaled, scaled_of, Au, PixelRatio,
};
use crate::text::{
    char_from_u32, char_of_code, escape_hyphens, hyphens_escaped, opt_view, remove_char, trim,
    trimmed, without_char,
};
use vstd::prelude::*;

verus! {

/// The glyph code that stands for "no glyph".
pub const FONT_INVALID_CODE: u32 = 0xFFFF_FFFF;

/// The type of every entity this driver makes.
pub const FONT_TYPE: &'static str = "wr";

/// The registry of every entity this driver makes.
pub const REGISTRY: &'static str = "iso10646-1";

/// The width of every entity this driver makes.
pub const ENTITY_WIDTH: u32 = 0;

/// The size of every entity this driver makes: none, an entity fits any.
pub const ENTITY_SIZE: u32 = 0;

/// The nine named weights of a font entity.
#[derive(Clone, Copy, Debug, PartialEq, Eq, Structural, Hash)]
pub enum WeightClass {
    Thin,
    ExtraLight,
    Light,
    Normal,
    Medium,
    SemiBold,
    Bold,
    ExtraBold,
    UltraBold,
}

/// The three named slants of a font entity.
#[derive(Clone, Copy, Debug, PartialEq, Eq, Structural, Hash)]
pub enum Slant {
    Normal,
    Italic,
    Oblique,
}

/// The weight class of a numeric weight: one class per hundred, the upper
/// bound included, and the heaviest class for everything above 900.
pub open spec fn weight_class_of(weight: u16) -> WeightClass {
    if weight <= 100 {
        WeightClass::Thin
    } else if weight <= 200 {
        WeightClass::ExtraLight
    } else if weight <= 300 {
        WeightClass::Light
    } else if weight <= 400 {
        WeightClass::Normal
    } else if weight <= 500 {
        WeightClass::Medium
    } else if weight <= 600 {
        WeightClass::SemiBold
    } else if weight <= 700 {
        WeightClass::Bold
    } else if weight <= 800 {
        WeightClass::ExtraBold
    } else {
        WeightClass::UltraBold
    }
}

/// The slant that stands for a style.
pub open spec fn slant_of(style: Style) -> Slant {
    match style {
        Style::Normal => Slant::Normal,
        Style::Italic => Slant::Italic,
        Style::Oblique => Slant::Oblique,
    }
}

impl WeightClass {
    /// The symbol by which the class is known.
    pub open spec fn symbol(self) -> Seq<char> {
        match self {
            WeightClass::Thin => "thin"@,
            WeightClass::ExtraLight => "extra-light"@,
            WeightClass::Light => "light"@,
            WeightClass::Normal => "normal"@,
            WeightClass::Medium => "medium"@,
            WeightClass::SemiBold => "semi-bold"@,
            WeightClass::Bold => "bold"@,
            WeightClass::ExtraBold => "extra-bold"@,
            WeightClass::UltraBold => "ultra-bold"@,
        }
    }

    /// The class of a numeric weight.
    pub fn from_number(weight: u16) -> (r: WeightClass)
        ensures
            r == weight_class_of(weight),
    {
        if weight <= 100 {
            WeightClass::Thin
        } else if weight <= 200 {
            WeightClass::ExtraLight
        } else if weight <= 300 {
            WeightClass::Light
        } else if weight <= 400 {
            WeightClass::Normal
        } else if weight <= 500 {
            WeightClass::Medium
        } else if weight <= 600 {
            WeightClass::SemiBold
        } else if weight <= 700 {
            WeightClass::Bold
        } else if weight <= 800 {
            WeightClass::ExtraBold
        } else {
            WeightClass::UltraBold
        }
    }

    /// The symbol by which the class is known.
    pub fn symbol_name(self) -> (r: &'static str)
        ensures
            r@ == self.symbol(),
    {
        match self {
            WeightClass::Thin => "thin",
            WeightClass::ExtraLight => "extra-light",
            WeightClass::Light => "light",
            WeightClass::Normal => "normal",
            WeightClass::Medium => "medium",
            WeightClass::SemiBold => "semi-bold",
            WeightClass::Bold => "bold",
            WeightClass::ExtraBold => "extra-bold",
            WeightClass::UltraBold => "ultra-bold",
        }
    }
}

impl Slant {
    /// The symbol by which the slant is known.
    pub open spec fn symbol(self) -> Seq<char> {
        match self {
            Slant::Normal => "normal"@,
            Slant::Italic => "italic"@,
            Slant::Oblique => "oblique"@,
        }
    }

    /// The slant that stands for a style.
    pub fn from_style(style: Style) -> (r: Slant)
        ensures
            r == slant_of(style),
    {
        match style {
            Style::Normal => Slant::Normal,
            Style::Italic => Slant::Italic,
            Style::Oblique => Slant::Oblique,
        }
    }

    /// The symbol by which the slant is known.
    pub fn symbol_name(self) -> (r: &'static str)
        ensures
            r@ == self.symbol(),
    {
        match self {
            Slant::Normal => "normal",
            Slant::Italic => "italic",
            Slant::Oblique => "oblique",
        }
    }
}

/// The bytes of a font file, and the number of the face meant in it.
#[derive(Debug, PartialEq, Eq)]
pub struct FontData {
    pub bytes: Vec<u8>,
    pub face_index: u32,
}

/// A font record as the host editor sees it: a font spec, which may name a
/// family, or a font entity, which has all its properties.
#[derive(Debug, PartialEq, Eq)]
pub struct LispFontLike {
    /// The driver that the record belongs to.
    pub font_type: Option<String>,
    pub family: Option<String>,
    pub weight: Option<WeightClass>,
    pub slant: Option<Slant>,
    pub width: Option<u32>,
    pub size: Option<u32>,
    pub registry: Option<String>,
    pub post_script_name: Option<String>,
}

/// What a [`LispFontLike`] holds, as mathematical values.
pub struct LispFontLikeView {
    pub font_type: Option<Seq<char>>,
    pub family: Option<Seq<char>>,
    pub weight: Option<WeightClass>,
    pub slant: Option<Slant>,
    pub width: Option<u32>,
    pub size: Option<u32>,
    pub registry: Option<Seq<char>>,
    pub post_script_name: Option<Seq<char>>,
}

impl View for LispFontLike {
    type V = LispFontLikeView;

    open spec fn view(&self) -> LispFontLikeView {
        LispFontLikeView {
            font_type: opt_view(self.font_type),
            family: opt_view(self.family),
            weight: self.weight,
            slant: self.slant,
            width: self.width,
            size: self.size,
            registry: opt_view(self.registry),
            post_script_name: opt_view(self.post_script_name),
        }
    }
}

/// The family of a font record as the driver asks for it: with every hyphen
/// escaped by a backslash.
pub open spec fn escaped_family(family: Option<Seq<char>>) -> Option<Seq<char>> {
    match family {
        Some(f) => Some(hyphens_escaped(f)),
        None => None,
    }
}

impl LispFontLike {
    /// A font spec that asks for a family and leaves everything else open.
    pub fn with_family(family: &str) -> (r: LispFontLike)
        ensures
            r@ == (LispFontLikeView {
                font_type: None,
                family: Some(family@),
                weight: None,
                slant: None,
                width: None,
                size: None,
                registry: None,
                post_script_name: None,
            }),
    {
        LispFontLike {
            font_type: None,
            family: Some(family.to_owned()),
            weight: None,
            slant: None,
            width: None,
            size: None,
            registry: None,
            post_script_name: None,
        }
    }

    /// The family the record names, hyphens escaped; none where it names no
    /// family.
    pub fn get_family(&self) -> (r: Option<String>)
        ensures
            opt_view(r) == escaped_family(self@.family),
    {
        match &self.family {
            Some(f) => Some(escape_hyphens(f.as_str())),
            None => None,
        }
    }
}

/// Why a candidate family gave no entity.
#[derive(Clone, Copy, Debug, PartialEq, Eq, Structural)]
pub enum MatchError {
    /// No font file was found for the candidate.
    NoFont,
    /// The candidate's font file could not be parsed.
    MalformedFace(FaceError),
    /// The candidate's face has no PostScript name.
    NoPostScriptName,
}

/// What was got for a candidate family: nothing, a font file that could
/// not be parsed, or the face parsed from its font file.
#[derive(Clone, Copy)]
pub enum CandidateFace<'a> {
    NoFont,
    Malformed(FaceError),
    Face(&'a ttf_parser::Face<'a>),
}

/// A candidate family that was passed over, and why.
#[derive(Clone, Copy, Debug, PartialEq, Eq, Structural)]
pub struct Skipped {
    /// The place of the candidate among the candidates.
    pub candidate: usize,
    pub reason: MatchError,
}

/// What matching found: the entities of the candidates that have a usable
/// face, in the order of the candidates, and the candidates that were passed
/// over.
#[derive(Debug, PartialEq, Eq)]
pub struct Matches {
    pub entities: Vec<LispFontLike>,
    pub skipped: Vec<Skipped>,
}

/// The entity made of a face for one candidate family: of this driver's
/// type, with the normalized family, the class of the weight, the slant of
/// the style, no width and no size, the registry, and the PostScript name.
pub open spec fn entity_of(
    platform: Platform,
    candidate: Seq<char>,
    weight: u16,
    style: Style,
    post_script_name: Seq<char>,
) -> LispFontLikeView {
    LispFontLikeView {
        font_type: Some(FONT_TYPE@),
        family: Some(normalized_family(platform, candidate)),
        weight: Some(weight_class_of(weight)),
        slant: Some(slant_of(style)),
        width: Some(ENTITY_WIDTH),
        size: Some(ENTITY_SIZE),
        registry: Some(REGISTRY@),
        post_script_name: Some(post_script_name),
    }
}

/// The families that are matched against: the one the spec names, hyphens
/// escaped, or every family of the system where it names none.
pub open spec fn candidates_of(
    family: Option<Seq<char>>,
    system_families: Seq<Seq<char>>,
) -> Seq<Seq<char>> {
    match family {
        Some(f) => seq![hyphens_escaped(f)],
        None => system_families,
    }
}

/// Where the font file of each candidate comes from: for the family that
/// the spec names, what its descriptor asks for; for each family of the
/// system, what the descriptor of that family asks for.
pub open spec fn requests_of(
    platform: Platform,
    family: Option<Seq<char>>,
    system_families: Seq<Seq<char>>,
) -> Seq<FontRequestView> {
    match family {
        Some(f) => seq![request_of(platform, descriptor_of(Some(f)))],
        None => Seq::new(
            system_families.len(),
            |i: int| request_of(platform, descriptor_of(Some(system_families[i]))),
        ),
    }
}

/// The texts of a list of strings.
pub open spec fn texts(names: Seq<String>) -> Seq<Seq<char>> {
    names.map_values(|s: String| s@)
}

/// The views of a list of font records.
pub open spec fn record_views(records: Seq<LispFontLike>) -> Seq<LispFontLikeView> {
    records.map_values(|r: LispFontLike| r@)
}

/// The views of a list of font requests.
pub open spec fn request_views(requests: Seq<FontRequest>) -> Seq<FontRequestView> {
    requests.map_values(|r: FontRequest| r@)
}

/// What was got for candidate `i`: what stands at its place in `faces`;
/// nothing where `faces` is too short.
pub open spec fn face_at<'a>(faces: Seq<CandidateFace<'a>>, i: int) -> CandidateFace<'a> {
    if 0 <= i < faces.len() {
        faces[i]
    } else {
        CandidateFace::NoFont
    }
}

/// What one candidate family gives: the entity made of its own face, with
/// that face's weight, style and PostScript name; or the reason why there
/// is none.
pub open spec fn outcome_of(
    platform: Platform,
    candidate: Seq<char>,
    face: CandidateFace<'_>,
) -> Result<LispFontLikeView, MatchError> {
    match face {
        CandidateFace::NoFont => Err(MatchError::NoFont),
        CandidateFace::Malformed(e) => Err(MatchError::MalformedFace(e)),
        CandidateFace::Face(face) => match post_script_name_of(*face) {
            Some(name) => Ok(
                entity_of(platform, candidate, weight_of(*face), style_of(*face), name),
            ),
            None => Err(MatchError::NoPostScriptName),
        },
    }
}

/// What each candidate gives, candidate `i` with what was got for it.
pub open spec fn outcomes_of<'a>(
    platform: Platform,
    candidates: Seq<Seq<char>>,
    faces: Seq<CandidateFace<'a>>,
) -> Seq<Result<LispFontLikeView, MatchError>> {
    Seq::new(
        candidates.len(),
        |i: int| outcome_of(platform, candidates[i], face_at(faces, i)),
    )
}

/// The entities among the outcomes, in order.
pub open spec fn entities_in(outcomes: Seq<Result<LispFontLikeView, MatchError>>) -> Seq<
    LispFontLikeView,
>
    decreases outcomes.len(),
{
    if outcomes.len() == 0 {
        Seq::empty()
    } else {
        match outcomes.last() {
            Ok(entity) => entities_in(outcomes.drop_last()).push(entity),
            Err(_) => entities_in(outcomes.drop_last()),
        }
    }
}

/// The candidates among the outcomes that gave no entity, in order, each
/// with its place and its reason.
pub open spec fn skipped_in(outcomes: Seq<Result<LispFontLikeView, MatchError>>) -> Seq<Skipped>
    decreases outcomes.len(),
{
    if outcomes.len() == 0 {
        Seq::empty()
    } else {
        match outcomes.last() {
            Ok(_) => skipped_in(outcomes.drop_last()),
            Err(reason) => skipped_in(outcomes.drop_last()).push(
                Skipped { candidate: (outcomes.len() - 1) as usize, reason },
            ),
        }
    }
}

/// The candidate families of a font spec: the family it names, hyphens
/// escaped, or `system_families` where it names none.
pub fn candidates(spec: &LispFontLike, system_families: &Vec<String>) -> (r: Vec<String>)
    ensures
        texts(r@) == candidates_of(spec@.family, texts(system_families@)),
{
    let mut r: Vec<String> = Vec::new();
    match spec.get_family() {
        Some(family) => {
            r.push(family);
            assert(texts(r@) =~= seq![hyphens_escaped(spec@.family->0)]);
        },
        None => {
            let mut i: usize = 0;
            while i < system_families.len()
                invariant
                    i <= system_families.len(),
                    r.len() == i,
                    forall|j: int| 0 <= j < i ==> #[trigger] r[j]@ == system_families[j]@,
                decreases system_families.len() - i,
            {
                r.push(system_families[i].clone());
                i += 1;
            }
            assert(texts(r@) =~= texts(system_families@));
        },
    }
    r
}

/// Says where the font file of each candidate family of a font spec is to
/// be got from, candidate by candidate.
pub fn match_requests(db: &FontDB, spec: &LispFontLike, system_families: &Vec<String>) -> (r: Vec<
    FontRequest,
>)
    ensures
        request_views(r@) == requests_of(
            db.platform(),
            spec@.family,
            texts(system_families@),
        ),
{
    let mut r: Vec<FontRequest> = Vec::new();
    if spec.family.is_some() {
        let desc = FontDescriptor::from_font_spec(spec);
        r.push(db.data_from_desc(&desc));
        assert(request_views(r@) =~= seq![
            request_of(db.platform(), descriptor_of(spec@.family)),
        ]);
    } else {
        let mut i: usize = 0;
        while i < system_families.len()
            invariant
                i <= system_families.len(),
                r.len() == i,
                forall|j: int|
                    0 <= j < i ==> #[trigger] r[j]@ == request_of(
                        db.platform(),
                        descriptor_of(Some(system_families[j]@)),
                    ),
            decreases system_families.len() - i,
        {
            let named = LispFontLike::with_family(system_families[i].as_str());
            let desc = FontDescriptor::from_font_spec(&named);
            r.push(db.data_from_desc(&desc));
            i += 1;
        }
        assert(request_views(r@) =~= requests_of(
            db.platform(),
            spec@.family,
            texts(system_families@),
        ));
    }
    r
}

/// Makes the entity of a candidate family from what was read of its face:
/// the weight, the style and the PostScript name.
pub fn make_entity(
    db: &FontDB,
    candidate: &str,
    weight: u16,
    style: Style,
    post_script_name: &str,
) -> (r: LispFontLike)
    ensures
        r@ == entity_of(db.platform(), candidate@, weight, style, post_script_name@),
{
    LispFontLike {
        font_type: Some(FONT_TYPE.to_owned()),
        family: Some(db.normalize_family_name(candidate)),
        weight: Some(WeightClass::from_number(weight)),
        slant: Some(Slant::from_style(style)),
        width: Some(ENTITY_WIDTH),
        size: Some(ENTITY_SIZE),
        registry: Some(REGISTRY.to_owned()),
        post_script_name: Some(post_script_name.to_owned()),
    }
}

/// Matches one candidate family against what was got for it: the entity
/// made of its face, or the reason why there is none.
pub fn entity_for(db: &FontDB, candidate: &str, face: CandidateFace<'_>) -> (r: Result<
    LispFontLike,
    MatchError,
>)
    ensures
        match outcome_of(db.platform(), candidate@, face) {
            Ok(entity) => r is Ok && r->Ok_0@ == entity,
            Err(reason) => r is Err && r->Err_0 == reason,
        },
{
    let face = match face {
        CandidateFace::NoFont => {
            return Err(MatchError::NoFont);
        },
        CandidateFace::Malformed(e) => {
            return Err(MatchError::MalformedFace(e));
        },
        CandidateFace::Face(face) => face,
    };
    let all_names = names(face);
    let post_script_name = match find_name(&all_names, POST_SCRIPT_NAME) {
        Some(name) => name,
        None => {
            return Err(MatchError::NoPostScriptName);
        },
    };
    Ok(make_entity(db, candidate, weight(face), style(face), post_script_name.as_str()))
}

/// Matches a font spec: each candidate family against its own face.
///
/// The candidates are the family the spec names or, where it names none,
/// `system_families`. `faces` holds, at the place of each candidate, what
/// was got for it: see [`match_requests`] for where its font file comes
/// from. A candidate gives the entity made of its own face. A candidate
/// without a font file, with a file that could not be parsed, or with a
/// face without a PostScript name is passed over, and listed with its
/// reason; the others are not touched by it.
pub fn match_(
    db: &FontDB,
    spec: &LispFontLike,
    system_families: &Vec<String>,
    faces: &Vec<CandidateFace<'_>>,
) -> (r: Matches)
    ensures
        record_views(r.entities@) == entities_in(
            outcomes_of(
                db.platform(),
                candidates_of(spec@.family, texts(system_families@)),
                faces@,
            ),
        ),
        r.skipped@ == skipped_in(
            outcomes_of(
                db.platform(),
                candidates_of(spec@.family, texts(system_families@)),
                faces@,
            ),
        ),
{
    let names = candidates(spec, system_families);
    let ghost outcomes = outcomes_of(
        db.platform(),
        candidates_of(spec@.family, texts(system_families@)),
        faces@,
    );
    let mut entities: Vec<LispFontLike> = Vec::new();
    let mut skipped: Vec<Skipped> = Vec::new();
    let mut i: usize = 0;
    assert(record_views(entities@) =~= entities_in(outcomes.take(0)));
    while i < names.len()
        invariant
            i <= names.len(),
            texts(names@) == candidates_of(spec@.family, texts(system_families@)),
            outcomes == outcomes_of(db.platform(), texts(names@), faces@),
            record_views(entities@) == entities_in(outcomes.take(i as int)),
            skipped@ == skipped_in(outcomes.take(i as int)),
        decreases names.len() - i,
    {
        let face = if i < faces.len() {
            faces[i]
        } else {
            CandidateFace::NoFont
        };
        assert(face == face_at(faces@, i as int));
        assert(outcomes.take(i + 1).drop_last() =~= outcomes.take(i as int));
        assert(outcomes.take(i + 1).last() == outcome_of(
            db.platform(),
            names[i as int]@,
            face_at(faces@, i as int),
        ));
        match entity_for(db, names[i].as_str(), face) {
            Ok(entity) => {
                let ghost before = entities@;
                entities.push(entity);
                assert(record_views(entities@) =~= record_views(before).push(entity@));
            },
            Err(reason) => {
                skipped.push(Skipped { candidate: i, reason });
            },
        }
        i += 1;
    }
    assert(outcomes.take(names.len() as int) =~= outcomes);
    Matches { entities, skipped }
}

/// Lists the entities for a font spec: the same as [`match_`].
pub fn list(
    db: &FontDB,
    spec: &LispFontLike,
    system_families: &Vec<String>,
    faces: &Vec<CandidateFace<'_>>,
) -> (r: Matches)
    ensures
        record_views(r.entities@) == entities_in(
            outcomes_of(
                db.platform(),
                candidates_of(spec@.family, texts(system_families@)),
                faces@,
            ),
        ),
        r.skipped@ == skipped_in(
            outcomes_of(
                db.platform(),
                candidates_of(spec@.family, texts(system_families@)),
                faces@,
            ),
        ),
{
    match_(db, spec, system_families, faces)
}

/// Every candidate is accounted for, once: it gave an entity or it was
/// passed over.
pub proof fn lemma_every_candidate_counted(outcomes: Seq<Result<LispFontLikeView, MatchError>>)
    ensures
        entities_in(outcomes).len() + skipped_in(outcomes).len() == outcomes.len(),
    decreases outcomes.len(),
{
    if outcomes.len() > 0 {
        lemma_every_candidate_counted(outcomes.drop_last());
    }
}

/// Where every candidate has a usable face, there is one entity for each,
/// in the order of the candidates, and each is the one made of that
/// candidate's own face; nothing is passed over.
pub proof fn lemma_all_matched(outcomes: Seq<Result<LispFontLikeView, MatchError>>)
    requires
        forall|i: int| 0 <= i < outcomes.len() ==> outcomes[i] is Ok,
    ensures
        entities_in(outcomes).len() == outcomes.len(),
        skipped_in(outcomes).len() == 0,
        forall|i: int|
            0 <= i < outcomes.len() ==> #[trigger] entities_in(outcomes)[i] == outcomes[i]->Ok_0,
    decreases outcomes.len(),
{
    if outcomes.len() > 0 {
        let rest = outcomes.drop_last();
        assert forall|i: int| 0 <= i < rest.len() implies rest[i] is Ok by {
            assert(rest[i] == outcomes[i]);
        }
        lemma_all_matched(rest);
        assert forall|i: int| 0 <= i < outcomes.len() implies #[trigger] entities_in(outcomes)[i]
            == outcomes[i]->Ok_0 by {
            if i < rest.len() {
                assert(rest[i] == outcomes[i]);
            }
        }
    }
}

/// A candidate that is passed over takes nothing from the others: the
/// entities are those of the outcomes without it.
pub proof fn lemma_skipped_candidate_is_alone(
    outcomes: Seq<Result<LispFontLikeView, MatchError>>,
    i: int,
)
    requires
        0 <= i < outcomes.len(),
        outcomes[i] is Err,
    ensures
        entities_in(outcomes) == entities_in(outcomes.remove(i)),
    decreases outcomes.len(),
{
    if i == outcomes.len() - 1 {
        assert(outcomes.remove(i) =~= outcomes.drop_last());
    } else {
        let rest = outcomes.drop_last();
        lemma_skipped_candidate_is_alone(rest, i);
        assert(outcomes.remove(i).drop_last() =~= rest.remove(i));
        assert(outcomes.remove(i).last() == outcomes.last());
    }
}

/// Every entity that matching makes is of this driver's type and registry,
/// has no width and no size, and has a PostScript name.
pub proof fn lemma_entity_fixed_fields(
    platform: Platform,
    candidate: Seq<char>,
    face: CandidateFace<'_>,
)
    requires
        outcome_of(platform, candidate, face) is Ok,
    ensures
        ({
            let entity = outcome_of(platform, candidate, face)->Ok_0;
            &&& entity.font_type == Some(FONT_TYPE@)
            &&& entity.family == Some(normalized_family(platform, candidate))
            &&& entity.registry == Some(REGISTRY@)
            &&& entity.width == Some(0u32)
            &&& entity.size == Some(0u32)
            &&& entity.post_script_name is Some
        }),
{
}

/// A family name as it is listed: without quote characters, and without
/// white space at its ends.
pub open spec fn listed_name(family: Seq<char>) -> Seq<char> {
    trimmed(without_char(family, '\''))
}

/// Lists the families of the system, each cleaned of quote characters and
/// of surrounding white space; the last family of the system comes first.
pub fn list_family(system_families: &Vec<String>) -> (r: Vec<String>)
    ensures
        r.len() == system_families.len(),
        forall|i: int|
            0 <= i < r.len() ==> #[trigger] r[i]@ == listed_name(
                system_families[system_families.len() - 1 - i]@,
            ),
{
    let n = system_families.len();
    let mut r: Vec<String> = Vec::new();
    let mut i: usize = 0;
    while i < n
        invariant
            i <= n,
            n == system_families.len(),
            r.len() == i,
            forall|j: int|
                0 <= j < i ==> #[trigger] r[j]@ == listed_name(system_families[n - 1 - j]@),
        decreases n - i,
    {
        let unquoted = remove_char(system_families[n - 1 - i].as_str(), '\'');
        let cleaned = trim(unquoted.as_str());
        r.push(cleaned);
        i += 1;
    }
    r
}

/// What was read of a parsed face to open a font, in font units.
#[derive(Clone, Copy, Debug, PartialEq, Eq, Structural)]
pub struct FaceReadings {
    pub units_per_em: u16,
    pub ascender: i16,
    pub descender: i16,
    /// The underline metrics, where the face has any.
    pub underline: Option<LineMetrics>,
    /// The horizontal advance of glyph 0, where it has one.
    pub average_advance: Option<u16>,
}

/// What the metrics of a font are computed from, in font units.
#[derive(Clone, Copy, Debug, PartialEq, Eq, Structural)]
pub struct FaceMetrics {
    pub units_per_em: u16,
    pub ascender: i16,
    pub descender: i16,
    pub underline: LineMetrics,
    /// The horizontal advance of glyph 0.
    pub average_advance: u16,
}

/// The metrics of an opened font, in pixels.
#[derive(Clone, Copy, Debug, PartialEq, Eq, Structural)]
pub struct FontMetrics {
    pub pixel_size: i32,
    pub average_width: i32,
    pub ascent: i32,
    /// The descent, as a positive length below the baseline.
    pub descent: i32,
    pub space_width: i32,
    pub max_width: i32,
    pub underline_thickness: i32,
    pub underline_position: i32,
    pub height: i32,
    pub baseline_offset: i32,
}

/// The extents of a run of glyphs, in pixels.
#[derive(Clone, Copy, Debug, PartialEq, Eq, Structural)]
pub struct TextMetrics {
    pub lbearing: i64,
    pub rbearing: i64,
    pub width: i64,
    pub ascent: i32,
    pub descent: i32,
}

/// Why a font could not be opened.
#[derive(Clone, Copy, Debug, PartialEq, Eq, Structural)]
pub enum OpenFontError {
    /// The file could not be parsed.
    MalformedFace(FaceError),
    /// The face has no units per em.
    NoUnitsPerEm,
    /// The face has no underline metrics.
    NoUnderlineMetrics,
    /// The face has no advance width for glyph 0.
    NoAverageWidth,
}

/// An opened font: the size it is shown at, the compositor's key for it at
/// that size, its metrics in pixels, and the units per em of its face.
#[derive(Clone, Copy, Debug, PartialEq, Eq)]
pub struct WRFont {
    device_pixel_ratio: PixelRatio,
    glyph_size: Au,
    font_instance_key: FontInstanceKey,
    metrics: FontMetrics,
    units_per_em: u16,
}

/// What a [`WRFont`] holds, as mathematical values.
pub struct WRFontView {
    pub device_pixel_ratio: PixelRatio,
    pub glyph_size: Au,
    pub font_instance_key: FontInstanceKey,
    pub metrics: FontMetrics,
    pub units_per_em: u16,
}

/// The pixel size a font is opened at: that of the font already open on
/// the output, where there is one, else the requested size.
pub open spec fn effective_pixel_size_of(current: Option<i32>, requested: i32) -> i32 {
    match current {
        Some(size) => size,
        None => requested,
    }
}

/// `value` font units of a face of `units_per_em` units per em, in pixels,
/// in a font of `pixel_size` pixels on a device of pixel ratio `ratio`.
pub open spec fn pixels_of(
    value: int,
    pixel_size: i32,
    ratio: PixelRatio,
    units_per_em: u16,
) -> i32 {
    scaled_of(value, pixel_size as int, ratio.num(), ratio.den(), units_per_em as int) as i32
}

/// The metrics of a font of `pixel_size` pixels on a device of pixel ratio
/// `ratio`, for a face with the metrics `face`.
pub open spec fn font_metrics_of(
    face: FaceMetrics,
    pixel_size: i32,
    ratio: PixelRatio,
) -> FontMetrics {
    let upem = face.units_per_em;
    let average = pixels_of(face.average_advance as int, pixel_size, ratio, upem);
    FontMetrics {
        pixel_size,
        average_width: average,
        ascent: pixels_of(face.ascender as int, pixel_size, ratio, upem),
        descent: pixels_of(-(face.descender as int), pixel_size, ratio, upem),
        space_width: average,
        max_width: average,
        underline_thickness: pixels_of(face.underline.thickness as int, pixel_size, ratio, upem),
        underline_position: pixels_of(face.underline.position as int, pixel_size, ratio, upem),
        height: pixels_of(face.ascender - face.descender, pixel_size, ratio, upem),
        baseline_offset: 0,
    }
}

/// What the metrics of a font are computed from, given what came of parsing
/// its file and of reading the face; or the reason why it cannot be opened.
pub open spec fn face_metrics_of(readings: Result<FaceReadings, FaceError>) -> Result<
    FaceMetrics,
    OpenFontError,
> {
    match readings {
        Err(e) => Err(OpenFontError::MalformedFace(e)),
        Ok(face) => if face.units_per_em == 0 {
            Err(OpenFontError::NoUnitsPerEm)
        } else if face.underline is None {
            Err(OpenFontError::NoUnderlineMetrics)
        } else if face.average_advance is None {
            Err(OpenFontError::NoAverageWidth)
        } else {
            Ok(
                FaceMetrics {
                    units_per_em: face.units_per_em,
                    ascender: face.ascender,
                    descender: face.descender,
                    underline: face.underline->0,
                    average_advance: face.average_advance->0,
                },
            )
        },
    }
}

/// The character that a code stands for, where it stands for one.
pub open spec fn char_of(code: i32) -> Option<char> {
    if 0 <= code {
        char_of_code(code as u32)
    } else {
        None
    }
}

/// The glyph code under which a glyph is known to the host.
pub open spec fn glyph_code(glyph: Option<u16>) -> Option<u32> {
    match glyph {
        Some(g) => Some(g as u32),
        None => None,
    }
}

/// The code that the driver gives for a glyph that may be missing.
pub open spec fn code_or_invalid(glyph: Option<u32>) -> u32 {
    match glyph {
        Some(g) => g,
        None => FONT_INVALID_CODE,
    }
}

/// The glyph code for a character code, where `glyph` is what the face has
/// for its character: the invalid code where the code stands for no
/// character, or the face has no glyph for it.
pub open spec fn encoded(code: i32, glyph: Option<u16>) -> u32 {
    match char_of(code) {
        Some(_) => code_or_invalid(glyph_code(glyph)),
        None => FONT_INVALID_CODE,
    }
}

/// The glyph that a glyph code names: its lower sixteen bits.
pub open spec fn glyph_id_of(code: u32) -> u16 {
    (code % 0x1_0000) as u16
}

/// The width in pixels of an advance that may be missing, in a font of
/// `pixel_size` pixels on a device of pixel ratio `ratio`, for a face of
/// `units_per_em` units per em.
pub open spec fn advance_width_of(
    advance: Option<u16>,
    pixel_size: i32,
    ratio: PixelRatio,
    units_per_em: u16,
) -> Option<i32> {
    match advance {
        Some(a) => Some(pixels_of(a as int, pixel_size, ratio, units_per_em)),
        None => None,
    }
}

/// The sum of the widths that are there.
pub open spec fn total_width(widths: Seq<Option<i32>>) -> int
    decreases widths.len(),
{
    if widths.len() == 0 {
        0
    } else {
        total_width(widths.drop_last()) + match widths.last() {
            Some(w) => w as int,
            None => 0,
        }
    }
}

/// The extents of a run whose glyphs have the given widths, in a font of
/// the given ascent and descent.
pub open spec fn extents_of(widths: Seq<Option<i32>>, ascent: i32, descent: i32) -> TextMetrics {
    TextMetrics {
        lbearing: 0,
        rbearing: total_width(widths) as i64,
        width: total_width(widths) as i64,
        ascent,
        descent,
    }
}

/// The widths in pixels, in an opened font, of glyphs with the given
/// advances.
pub open spec fn widths_of(font: WRFontView, advances: Seq<Option<u16>>) -> Seq<Option<i32>> {
    Seq::new(
        advances.len(),
        |i: int|
            advance_width_of(
                advances[i],
                font.metrics.pixel_size,
                font.device_pixel_ratio,
                font.units_per_em,
            ),
    )
}

/// The pixel size a font is opened at; see [`effective_pixel_size_of`].
pub fn effective_pixel_size(current: Option<i32>, requested: i32) -> (r: i32)
    ensures
        r == effective_pixel_size_of(current, requested),
{
    match current {
        Some(size) => size,
        None => requested,
    }
}

/// Computes the metrics of a font from those of its face: every length is
/// the face's, times the pixel size and the pixel ratio, over the units per
/// em, rounded to the nearest pixel; the descent is stored as a positive
/// length, and the height is the scaled distance from descender to ascender.
pub fn font_metrics(face: &FaceMetrics, pixel_size: i32, ratio: PixelRatio) -> (r: FontMetrics)
    requires
        face.units_per_em > 0,
    ensures
        r == font_metrics_of(*face, pixel_size, ratio),
{
    let upem = face.units_per_em;
    let average = scaled(face.average_advance as i32, pixel_size, ratio, upem);
    FontMetrics {
        pixel_size,
        average_width: average,
        ascent: scaled(face.ascender as i32, pixel_size, ratio, upem),
        descent: scaled(-(face.descender as i32), pixel_size, ratio, upem),
        space_width: average,
        max_width: average,
        underline_thickness: scaled(face.underline.thickness as i32, pixel_size, ratio, upem),
        underline_position: scaled(face.underline.position as i32, pixel_size, ratio, upem),
        height: scaled(face.ascender as i32 - face.descender as i32, pixel_size, ratio, upem),
        baseline_offset: 0,
    }
}

/// The character to ask a face about for a character code, where the code
/// stands for one.
pub fn char_for_code(c: i32) -> (r: Option<char>)
    ensures
        r == char_of(c),
{
    if c < 0 {
        None
    } else {
        char_from_u32(c as u32)
    }
}

/// The glyph to ask a face about for a glyph code.
pub fn glyph_id(code: u32) -> (r: u16)
    ensures
        r == glyph_id_of(code),
{
    (code % 0x1_0000) as u16
}

/// The code that the driver gives for a glyph that may be missing.
pub fn glyph_code_or_invalid(glyph: Option<u32>) -> (r: u32)
    ensures
        r == code_or_invalid(glyph),
{
    match glyph {
        Some(g) => g,
        None => FONT_INVALID_CODE,
    }
}

/// The width in pixels of an advance that may be missing.
pub fn advance_width(
    advance: Option<u16>,
    pixel_size: i32,
    ratio: PixelRatio,
    units_per_em: u16,
) -> (r: Option<i32>)
    requires
        units_per_em > 0,
    ensures
        r == advance_width_of(advance, pixel_size, ratio, units_per_em),
{
    match advance {
        Some(a) => Some(scaled(a as i32, pixel_size, ratio, units_per_em)),
        None => None,
    }
}

/// The extents of a run of glyphs from the widths of its glyphs: the width
/// is the sum of the widths that are there, the left bearing is zero, the
/// right bearing is the width.
pub fn extents(widths: &Vec<Option<i32>>, ascent: i32, descent: i32) -> (r: TextMetrics)
    requires
        widths.len() <= i32::MAX,
    ensures
        r == extents_of(widths@, ascent, descent),
{
    let mut width: i64 = 0;
    let mut i: usize = 0;
    while i < widths.len()
        invariant
            i <= widths.len() <= i32::MAX,
            width == total_width(widths@.take(i as int)),
            -0x8000_0000 * i <= width <= 0x8000_0000 * i,
        decreases widths.len() - i,
    {
        assert(widths@.take(i + 1).drop_last() =~= widths@.take(i as int));
        match widths[i] {
            Some(w) => {
                width = width + w as i64;
            },
            None => {},
        }
        i += 1;
    }
    assert(widths@.take(widths.len() as int) =~= widths@);
    TextMetrics { lbearing: 0, rbearing: width, width, ascent, descent }
}

impl View for WRFont {
    type V = WRFontView;

    closed spec fn view(&self) -> WRFontView {
        WRFontView {
            device_pixel_ratio: self.device_pixel_ratio,
            glyph_size: self.glyph_size,
            font_instance_key: self.font_instance_key,
            metrics: self.metrics,
            units_per_em: self.units_per_em,
        }
    }
}

impl WRFont {
    #[verifier::type_invariant]
    spec fn has_units_per_em(self) -> bool {
        self.units_per_em > 0
    }

    /// The ratio of device pixels to logical pixels that the font was opened for.
    pub fn device_pixel_ratio(&self) -> (r: PixelRatio)
        ensures
            r == self@.device_pixel_ratio,
    {
        self.device_pixel_ratio
    }

    /// The size of the font's glyphs.
    pub fn glyph_size(&self) -> (r: Au)
        ensures
            r == self@.glyph_size,
    {
        self.glyph_size
    }

    /// The compositor's key for the font at its size.
    pub fn font_instance_key(&self) -> (r: FontInstanceKey)
        ensures
            r == self@.font_instance_key,
    {
        self.font_instance_key
    }

    /// The metrics of the font, in pixels.
    pub fn metrics(&self) -> (r: FontMetrics)
        ensures
            r == self@.metrics,
    {
        self.metrics
    }

    /// The units per em of the font's face.
    pub fn units_per_em(&self) -> (r: u16)
        ensures
            r == self@.units_per_em,
            r > 0,
    {
        proof {
            use_type_invariant(self);
        }
        self.units_per_em
    }

    /// The glyph code of a glyph that the font's face gave for a character.
    pub fn glyph_for_char(&self, glyph: Option<u16>) -> (r: Option<u32>)
        ensures
            r == glyph_code(glyph),
    {
        match glyph {
            Some(g) => Some(g as u32),
            None => None,
        }
    }

    /// The widths in pixels of glyphs with the given advances, as the
    /// font's face gave them; none for a glyph without an advance.
    pub fn get_glyph_advance_width(&self, advances: &Vec<Option<u16>>) -> (r: Vec<Option<i32>>)
        ensures
            r@ == widths_of(self@, advances@),
    {
        let upem = self.units_per_em();
        let mut r: Vec<Option<i32>> = Vec::new();
        let mut i: usize = 0;
        while i < advances.len()
            invariant
                i <= advances.len(),
                r.len() == i,
                upem > 0,
                upem == self@.units_per_em,
                forall|j: int| 0 <= j < i ==> #[trigger] r[j] == widths_of(self@, advances@)[j],
            decreases advances.len() - i,
        {
            r.push(
                advance_width(advances[i], self.metrics.pixel_size, self.device_pixel_ratio, upem),
            );
            i += 1;
        }
        assert(r@ =~= widths_of(self@, advances@));
        r
    }
}

/// Opens a font at a pixel size, for a device of the given pixel ratio,
/// under the key that the compositor gave for it at its glyph size.
/// `readings` is what came of parsing the font file and of reading the
/// face.
///
/// The pixel size is that of the font already open on the output, `current`,
/// where there is one, so that everything on one output has one size. The
/// metrics are scaled by the pixel size times the pixel ratio over the
/// face's units per em, and rounded once. The glyph size is the pixel size
/// times the pixel ratio in app units, as the font instance is keyed.
pub fn open_font(
    current: Option<i32>,
    pixel_size: i32,
    device_pixel_ratio: PixelRatio,
    readings: Result<FaceReadings, FaceError>,
    font_instance_key: FontInstanceKey,
) -> (r: Result<WRFont, OpenFontError>)
    ensures
        match face_metrics_of(readings) {
            Ok(face) => {
                &&& r is Ok
                &&& r->Ok_0@.units_per_em == face.units_per_em
                &&& r->Ok_0@.device_pixel_ratio == device_pixel_ratio
                &&& r->Ok_0@.glyph_size.0 == glyph_size_of(
                    effective_pixel_size_of(current, pixel_size) as int,
                    device_pixel_ratio.num(),
                    device_pixel_ratio.den(),
                )
                &&& r->Ok_0@.font_instance_key == font_instance_key
                &&& r->Ok_0@.metrics == font_metrics_of(
                    face,
                    effective_pixel_size_of(current, pixel_size),
                    device_pixel_ratio,
                )
            },
            Err(e) => r is Err && r->Err_0 == e,
        },
{
    let pixel_size = effective_pixel_size(current, pixel_size);
    let size = glyph_size(pixel_size, device_pixel_ratio);
    let face = match readings {
        Ok(face) => face,
        Err(e) => {
            return Err(OpenFontError::MalformedFace(e));
        },
    };
    if face.units_per_em == 0 {
        return Err(OpenFontError::NoUnitsPerEm);
    }
    let underline = match face.underline {
        Some(u) => u,
        None => {
            return Err(OpenFontError::NoUnderlineMetrics);
        },
    };
    let average_advance = match face.average_advance {
        Some(a) => a,
        None => {
            return Err(OpenFontError::NoAverageWidth);
        },
    };
    let face_metrics = FaceMetrics {
        units_per_em: face.units_per_em,
        ascender: face.ascender,
        descender: face.descender,
        underline,
        average_advance,
    };
    let metrics = font_metrics(&face_metrics, pixel_size, device_pixel_ratio);
    Ok(
        WRFont {
            device_pixel_ratio,
            glyph_size: size,
            font_instance_key,
            metrics,
            units_per_em: face.units_per_em,
        },
    )
}

/// Closes a font. Nothing is held that would have to be given back, so the
/// font is left as it is.
pub fn close_font(font: &mut WRFont)
    ensures
        final(font)@ == old(font)@,
{
}

/// The glyph code for a character code, where `glyph` is what the font's
/// face has for the character of the code (see [`char_for_code`]); the
/// invalid code where the code is no character or the face has no glyph
/// for it.
pub fn encode_char(c: i32, glyph: Option<u16>) -> (r: u32)
    ensures
        r == encoded(c, glyph),
{
    match char_for_code(c) {
        Some(_) => match glyph {
            Some(g) => g as u32,
            None => FONT_INVALID_CODE,
        },
        None => FONT_INVALID_CODE,
    }
}

/// What [`has_char`] is asked about: an entity that was matched but not
/// opened, or an opened font; each with the glyph that its face has for the
/// character in question, if it has a face and the face has one.
pub enum FontObject<'a> {
    Entity { entity: &'a LispFontLike, glyph: Option<u16> },
    Font { glyph: Option<u16> },
}

/// Whether a font has a glyph for a character code: for an entity, -1 where
/// it has no PostScript name, else 1 where the code is a character for
/// which its face has a glyph, and 0 where it is not; for an opened font, 1
/// or 0 by whether the glyph code is a valid one.
pub open spec fn has_char_of(font: FontObject<'_>, code: i32) -> i32 {
    match font {
        FontObject::Entity { entity, glyph } => if entity@.post_script_name is None {
            -1i32
        } else if char_of(code) is Some && glyph is Some {
            1i32
        } else {
            0i32
        },
        FontObject::Font { glyph } => if encoded(code, glyph) != FONT_INVALID_CODE {
            1i32
        } else {
            0i32
        },
    }
}

/// Whether a font has a glyph for a character code; see [`has_char_of`].
pub fn has_char(font: FontObject<'_>, c: i32) -> (r: i32)
    ensures
        r == has_char_of(font, c),
{
    match font {
        FontObject::Entity { entity, glyph } => {
            if entity.post_script_name.is_none() {
                -1
            } else if char_for_code(c).is_some() && glyph.is_some() {
                1
            } else {
                0
            }
        },
        FontObject::Font { glyph } => {
            if encode_char(c, glyph) != FONT_INVALID_CODE {
                1
            } else {
                0
            }
        },
    }
}

/// The extents of a run of glyphs in an opened font, from the advances that
/// the font's face gave for them: the width is the sum of the scaled
/// advances, a glyph without an advance counting nothing; ascent and
/// descent are the font's.
pub fn text_extents(font: &WRFont, advances: &Vec<Option<u16>>) -> (r: TextMetrics)
    requires
        advances.len() <= i32::MAX,
    ensures
        r == extents_of(widths_of(font@, advances@), font@.metrics.ascent, font@.metrics.descent),
{
    let widths = font.get_glyph_advance_width(advances);
    extents(&widths, font.metrics.ascent, font.metrics.descent)
}

/// The extents of an empty run: no width, and no left bearing.
pub proof fn lemma_text_extents_empty(font: WRFontView)
    ensures
        extents_of(
            widths_of(font, Seq::empty()),
            font.metrics.ascent,
            font.metrics.descent,
        ).width == 0,
        extents_of(
            widths_of(font, Seq::empty()),
            font.metrics.ascent,
            font.metrics.descent,
        ).lbearing == 0,
{
    assert(widths_of(font, Seq::empty()) =~= Seq::empty());
}

/// The width of a run is the sum of the widths of its parts: nothing is
/// added between glyphs.
pub proof fn lemma_total_width_concat(xs: Seq<Option<i32>>, ys: Seq<Option<i32>>)
    ensures
        total_width(xs + ys) == total_width(xs) + total_width(ys),
    decreases ys.len(),
{
    if ys.len() == 0 {
        assert(xs + ys =~= xs);
    } else {
        lemma_total_width_concat(xs, ys.drop_last());
        assert((xs + ys).drop_last() =~= xs + ys.drop_last());
        assert((xs + ys).last() == ys.last());
    }
}

/// The width of a run in an opened font is the sum of the widths of its
/// parts.
pub proof fn lemma_run_width_concat(
    font: WRFontView,
    xs: Seq<Option<u16>>,
    ys: Seq<Option<u16>>,
)
    ensures
        total_width(widths_of(font, xs + ys)) == total_width(widths_of(font, xs)) + total_width(
            widths_of(font, ys),
        ),
{
    assert(widths_of(font, xs + ys) =~= widths_of(font, xs) + widths_of(font, ys));
    lemma_total_width_concat(widths_of(font, xs), widths_of(font, ys));
}

/// `value` font units, not negative and at most 65535, in pixels, where a
/// font unit is at most 16384 pixels: the rounded product itself, which is
/// within range and not negative.
proof fn lemma_pixels_in_range(value: int, scale: int, d: int)
    requires
        0 <= value <= 65535,
        d > 0,
        0 <= scale <= 0x4000 * d,
    ensures
        clamp_i32(round_div(value * scale, d)) == round_div(value * scale, d),
        0 <= round_div(value * scale, d) <= 0x3FFF_C000,
{
    assert(0 <= value * scale <= 0x3FFF_C000 * d) by (nonlinear_arith)
        requires
            0 <= value <= 65535,
            d > 0,
            0 <= scale <= 0x4000 * d,
    ;
    lemma_round_div_bound(value * scale, d, 0x3FFF_C000);
    lemma_round_div_sign(value * scale, d);
}

/// Ascent and descent are not negative, and the height is their sum to
/// within one pixel, each of the three being rounded on its own. This holds
/// of a face whose descender is not above and whose ascender is not below
/// the baseline, at a pixel size that is not negative, as long as a font
/// unit is at most 16384 pixels.
pub proof fn lemma_height_near_ascent_plus_descent(
    face: FaceMetrics,
    pixel_size: i32,
    ratio: PixelRatio,
)
    requires
        face.units_per_em > 0,
        ratio.den() > 0,
        ratio.num() >= 0,
        face.descender <= 0 <= face.ascender,
        0 <= pixel_size * ratio.num() <= 0x4000 * (ratio.den() * face.units_per_em),
    ensures
        ({
            let metrics = font_metrics_of(face, pixel_size, ratio);
            &&& metrics.ascent >= 0
            &&& metrics.descent >= 0
            &&& -1 <= metrics.height - (metrics.ascent + metrics.descent) <= 1
        }),
{
    let scale = pixel_size * ratio.num();
    let d = ratio.den() * face.units_per_em;
    let a = face.ascender as int;
    let b = -(face.descender as int);
    assert(d > 0) by (nonlinear_arith)
        requires
            d == ratio.den() * face.units_per_em,
            ratio.den() > 0,
            face.units_per_em > 0,
    ;
    assert(a * pixel_size * ratio.num() == a * scale) by (nonlinear_arith)
        requires
            scale == pixel_size * ratio.num(),
    ;
    assert(b * pixel_size * ratio.num() == b * scale) by (nonlinear_arith)
        requires
            scale == pixel_size * ratio.num(),
    ;
    assert((a + b) * pixel_size * ratio.num() == (a + b) * scale) by (nonlinear_arith)
        requires
            scale == pixel_size * ratio.num(),
    ;
    assert((a + b) * scale == a * scale + b * scale) by (nonlinear_arith);
    lemma_pixels_in_range(a, scale, d);
    lemma_pixels_in_range(b, scale, d);
    lemma_pixels_in_range(a + b, scale, d);
    lemma_round_div_sum(a * scale, b * scale, d);
    assert(face.ascender - face.descender == a + b);
}

} // verus!
