use wr::font::LispFontLike;
use wr::font_db::{
    FaceRecord, FontDB, FontDescriptor, FontProperty, FontRequest, Platform, Style,
};

fn db() -> FontDB {
    FontDB::new(Platform::Other, Vec::new())
}

fn record(family: &str, post_script_name: &str) -> FaceRecord {
    FaceRecord {
        family: family.to_string(),
        post_script_name: post_script_name.to_string(),
        weight: 400,
        style: Style::Normal,
        stretch: 5,
        source: FontRequest::File {
            path: format!("/fonts/{}.ttf", post_script_name),
            font_index: 0,
        },
    }
}

#[test]
fn generic_keywords_resolve() {
    let db = db();
    assert_eq!(db.normalize_family_name("serif"), "Times New Roman");
    assert_eq!(db.normalize_family_name("sans-serif"), "Arial");
    assert_eq!(db.normalize_family_name("sans serif"), "Arial");
    assert_eq!(db.normalize_family_name("monospace"), "Courier New");
    assert_eq!(db.normalize_family_name("cursive"), "Comic Sans MS");
    assert_eq!(db.normalize_family_name("fantasy"), "Impact");
}

#[test]
fn fantasy_differs_by_platform() {
    let mac = FontDB::new(Platform::MacOs, Vec::new());
    assert_eq!(mac.normalize_family_name("fantasy"), "Papyrus");
    assert_eq!(mac.normalize_family_name("Fantasy"), "Papyrus");
    assert_eq!(mac.normalize_family_name("serif"), "Times New Roman");
}

#[test]
fn keywords_match_in_any_letter_case() {
    let db = db();
    assert_eq!(db.normalize_family_name("Sans-Serif"), "Arial");
    assert_eq!(db.normalize_family_name("SANS SERIF"), "Arial");
    assert_eq!(db.normalize_family_name("MonoSpace"), "Courier New");
}

#[test]
fn both_sans_serif_spellings_give_one_family() {
    let db = db();
    assert_eq!(db.normalize_family_name("sans-serif"), db.normalize_family_name("sans serif"));
}

#[test]
fn unrecognized_names_pass_through() {
    let db = db();
    assert_eq!(db.normalize_family_name("DejaVu Sans"), "DejaVu Sans");
    assert_eq!(db.normalize_family_name("Serif "), "Serif ");
    assert_eq!(db.normalize_family_name("sans_serif"), "sans_serif");
    assert_eq!(db.normalize_family_name(""), "");
}

#[test]
fn family_for_keyword_goes_by_the_lowered_name() {
    assert_eq!(FontDB::family_for_keyword(Platform::Other, "serif", "SeRiF"), "Times New Roman");
    assert_eq!(FontDB::family_for_keyword(Platform::Other, "SeRiF", "SeRiF"), "SeRiF");
    assert_eq!(FontDB::family_for_keyword(Platform::MacOs, "fantasy", "x"), "Papyrus");
    assert_eq!(FontDB::family_for_keyword(Platform::Other, "fantasy", "x"), "Impact");
    assert_eq!(FontDB::family_for_keyword(Platform::Other, "fira", "Fira"), "Fira");
}

#[test]
fn descriptor_of_a_font_spec() {
    let spec = LispFontLike::with_family("Noto Sans Regular");
    assert_eq!(
        FontDescriptor::from_font_spec(&spec),
        FontDescriptor::Properties {
            family: "Noto Sans".to_string(),
            weight: 400,
            style: Style::Normal,
            stretch: 5,
        }
    );
}

#[test]
fn descriptor_keeps_regular_inside_a_family() {
    let spec = LispFontLike::with_family("Regular Grotesk");
    assert_eq!(
        FontDescriptor::from_font_spec(&spec),
        FontDescriptor::Properties {
            family: "Regular Grotesk".to_string(),
            weight: 400,
            style: Style::Normal,
            stretch: 5,
        }
    );
}

#[test]
fn descriptor_of_a_spec_without_family() {
    let spec = LispFontLike {
        font_type: None,
        family: None,
        weight: None,
        slant: None,
        width: None,
        size: None,
        registry: None,
        post_script_name: None,
    };
    assert_eq!(
        FontDescriptor::from_font_spec(&spec),
        FontDescriptor::Properties {
            family: "nil".to_string(),
            weight: 400,
            style: Style::Normal,
            stretch: 5,
        }
    );
}

#[test]
fn descriptors_compare_by_what_they_hold() {
    let a = FontDescriptor::Family { name: "Arial".to_string() };
    let b = FontDescriptor::Family { name: "Arial".to_string() };
    let c = FontDescriptor::Family { name: "arial".to_string() };
    let p = FontDescriptor::Path { path: "Arial".to_string(), font_index: 0 };
    let q = FontDescriptor::Path { path: "Arial".to_string(), font_index: 1 };
    let x = FontDescriptor::Properties {
        family: "Arial".to_string(),
        weight: 400,
        style: Style::Normal,
        stretch: 5,
    };
    let y = FontDescriptor::Properties {
        family: "Arial".to_string(),
        weight: 400,
        style: Style::Italic,
        stretch: 5,
    };
    assert!(a.same(&b));
    assert!(!a.same(&c));
    assert!(!a.same(&p));
    assert!(p.same(&p.clone()));
    assert!(!p.same(&q));
    assert!(x.same(&x.clone()));
    assert!(!x.same(&y));
    assert_eq!(x.clone(), x);
}

#[test]
fn path_descriptor_asks_for_the_file() {
    let desc = FontDescriptor::Path { path: "/fonts/a.ttc".to_string(), font_index: 3 };
    assert_eq!(
        db().data_from_desc(&desc),
        FontRequest::File { path: "/fonts/a.ttc".to_string(), font_index: 3 }
    );
}

#[test]
fn family_descriptor_asks_the_provider() {
    let desc = FontDescriptor::Family { name: "Monospace".to_string() };
    assert_eq!(
        db().data_from_desc(&desc),
        FontRequest::System(FontProperty {
            family: "Courier New".to_string(),
            bold: false,
            slant: Style::Normal,
        })
    );
    assert_eq!(
        db().data_from_name("Fira Code"),
        FontProperty { family: "Fira Code".to_string(), bold: false, slant: Style::Normal }
    );
}

#[test]
fn bold_is_asked_for_from_700() {
    let db = db();
    assert!(!db.data_from_properties("serif", 699, Style::Normal).bold);
    assert!(db.data_from_properties("serif", 700, Style::Normal).bold);
    assert!(db.data_from_properties("serif", 900, Style::Normal).bold);
    assert!(!db.data_from_properties("serif", 0, Style::Normal).bold);
}

#[test]
fn properties_descriptor_asks_the_provider() {
    let desc = FontDescriptor::Properties {
        family: "cursive".to_string(),
        weight: 800,
        style: Style::Oblique,
        stretch: 7,
    };
    assert_eq!(
        db().data_from_desc(&desc),
        FontRequest::System(FontProperty {
            family: "Comic Sans MS".to_string(),
            bold: true,
            slant: Style::Oblique,
        })
    );
    assert_eq!(
        db().data_from_properties("Fira", 400, Style::Italic),
        FontProperty { family: "Fira".to_string(), bold: false, slant: Style::Italic }
    );
}

#[test]
fn family_is_found_by_post_script_name() {
    let db = FontDB::new(
        Platform::Other,
        vec![
            record("DejaVu Sans", "DejaVuSans"),
            record("DejaVu Sans", "DejaVuSans-Bold"),
            record("Liberation Mono", "LiberationMono"),
            record("Shadow", "DejaVuSans"),
        ],
    );
    assert_eq!(db.family_by_post_script_name("DejaVuSans"), Some("DejaVu Sans".to_string()));
    assert_eq!(
        db.family_by_post_script_name("LiberationMono"),
        Some("Liberation Mono".to_string())
    );
    assert_eq!(db.family_by_post_script_name("dejavusans"), None);
    assert_eq!(db.family_by_post_script_name(""), None);
}

#[test]
fn true_family_needs_a_face() {
    let db = FontDB::new(Platform::Other, vec![record("DejaVu Sans", "DejaVuSans")]);
    assert_eq!(db.true_family_name(None), None);
}
