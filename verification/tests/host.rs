use font_kit::source::SystemSource;
use glyph_brush::ab_glyph::FontVec;
use sugarloaf::face::classify;
use sugarloaf::face::FontFace;
use sugarloaf::face::FontFile;
use sugarloaf::face::Skip;
use sugarloaf::face::Slot;
use sugarloaf::face::Style;
use sugarloaf::font::BundledFonts;
use sugarloaf::font::FamilySource;
use sugarloaf::font::Font;
use sugarloaf::font::HostFonts;
use sugarloaf::font::SymbolSource;
use sugarloaf::font::SYMBOL_FACE_INDEX;
use sugarloaf::font::SYMBOL_FONT_NAME;
use sugarloaf::font::UNICODE_FACE_INDEX;
use sugarloaf::font::UNICODE_FONT_NAME;

fn small_font(units_per_em: u16) -> Vec<u8> {
    let mut out: Vec<u8> = Vec::new();
    out.extend_from_slice(&0x0001_0000u32.to_be_bytes());
    out.extend_from_slice(&3u16.to_be_bytes());
    out.extend_from_slice(&[0u8; 6]);
    let tables: [(&[u8; 4], u32, u32); 3] =
        [(b"head", 60, 54), (b"hhea", 114, 36), (b"maxp", 150, 6)];
    for (tag, offset, length) in tables {
        out.extend_from_slice(tag);
        out.extend_from_slice(&0u32.to_be_bytes());
        out.extend_from_slice(&offset.to_be_bytes());
        out.extend_from_slice(&length.to_be_bytes());
    }
    let mut head = vec![0u8; 54];
    head[18..20].copy_from_slice(&units_per_em.to_be_bytes());
    out.extend_from_slice(&head);
    let mut hhea = vec![0u8; 36];
    hhea[34..36].copy_from_slice(&1u16.to_be_bytes());
    out.extend_from_slice(&hhea);
    out.extend_from_slice(&0x0000_5000u32.to_be_bytes());
    out.extend_from_slice(&1u16.to_be_bytes());
    out
}

/// Hands a file over with what the glyph engine's parser says of it.
fn file(bytes: Vec<u8>, index: u32) -> FontFile {
    let loads = FontVec::try_from_vec_and_index(bytes.clone(), index).is_ok();
    FontFile { bytes, loads }
}

fn built_in() -> BundledFonts {
    BundledFonts::new(
        file(small_font(1000), 0),
        file(small_font(1001), 0),
        file(small_font(1002), 0),
        file(small_font(1003), 0),
        file(small_font(1004), 0),
        file(small_font(1005), 0),
    )
    .unwrap()
}

/// Asks the host as the request says, the way the embedding program does.
fn ask_host(font_name: &str, symbols: SymbolSource) -> HostFonts {
    let request = Font::request(font_name, symbols);
    let mut family: Vec<Option<FontFace>> = Vec::new();
    if request.family {
        if let Ok(handles) = SystemSource::new().select_family_by_name(font_name) {
            for handle in handles.fonts() {
                family.push(handle.load().ok().map(|font| {
                    let found = font.properties();
                    let style = match found.style {
                        font_kit::properties::Style::Normal => Style::Normal,
                        font_kit::properties::Style::Italic => Style::Italic,
                        font_kit::properties::Style::Oblique => Style::Oblique,
                    };
                    let weight = found.weight.0.round() as i32;
                    let data = if classify(style, weight).is_some() {
                        font.copy_font_data().map(|bytes| file(bytes.to_vec(), 0))
                    } else {
                        None
                    };
                    FontFace { style, weight, data }
                }));
            }
        }
    }
    let by_name = |asked: bool, name: &str, index: u32| -> Option<FontFile> {
        if !asked {
            return None;
        }
        let handle = SystemSource::new().select_by_postscript_name(name).ok()?;
        let font = handle.load().ok()?;
        font.copy_font_data().map(|bytes| file(bytes.to_vec(), index))
    };
    HostFonts {
        family,
        symbol: by_name(request.symbol, SYMBOL_FONT_NAME, SYMBOL_FACE_INDEX),
        unicode: by_name(request.unicode, UNICODE_FONT_NAME, UNICODE_FACE_INDEX),
    }
}

const ABSENT: &str = "No Such Family 7f3a91c2";

#[test]
fn unknown_family_resolves_to_the_built_in_faces() {
    let host = ask_host(ABSENT, SymbolSource::Bundled);
    assert!(host.family.is_empty());
    let font = Font::new(ABSENT.to_string(), host, built_in());
    assert_eq!(font.text.regular.bytes(), &small_font(1000));
    assert_eq!(font.text.bold.bytes(), &small_font(1001));
    assert_eq!(font.text.italic.bytes(), &small_font(1002));
    assert_eq!(font.text.bold_italic.bytes(), &small_font(1003));
    assert_eq!(font.symbol.bytes(), &small_font(1005));
    assert_eq!(font.emojis.bytes(), &small_font(1004));
    assert_eq!(font.unicode.bytes(), &small_font(1005));
    assert_eq!(font.source, FamilySource::Fallback);
    assert!(font.skipped.is_empty());
    assert_eq!(font.symbol_source, SymbolSource::Bundled);
    assert_eq!(font.unicode_source, SymbolSource::Bundled);
}

#[test]
fn default_name_resolves_to_the_built_in_faces() {
    for name in ["cascadiamono", "CascadiaMono", "CASCADIAMONO"] {
        let host = ask_host(name, SymbolSource::Bundled);
        assert!(host.family.is_empty());
        assert!(host.symbol.is_none());
        assert!(host.unicode.is_none());
        let font = Font::new(name.to_string(), host, built_in());
        assert_eq!(font.text.regular.bytes(), &small_font(1000));
        assert_eq!(font.text.bold.bytes(), &small_font(1001));
        assert_eq!(font.text.italic.bytes(), &small_font(1002));
        assert_eq!(font.text.bold_italic.bytes(), &small_font(1003));
        assert_eq!(font.symbol.bytes(), &small_font(1005));
        assert_eq!(font.emojis.bytes(), &small_font(1004));
        assert_eq!(font.unicode.bytes(), &small_font(1005));
        assert_eq!(font.source, FamilySource::BuiltIn);
    }
}

#[test]
fn name_with_a_zero_byte_is_kept_from_the_host() {
    let host = ask_host("Deja\u{0}Vu", SymbolSource::Bundled);
    assert!(host.family.is_empty());
    let font = Font::new("Deja\u{0}Vu".to_string(), host, built_in());
    assert_eq!(font.text.regular.bytes(), &small_font(1000));
    assert_eq!(font.text.bold_italic.bytes(), &small_font(1003));
    assert_eq!(font.source, FamilySource::Fallback);
}

#[test]
fn auxiliary_faces_from_the_host_always_load() {
    let host = ask_host(ABSENT, SymbolSource::Host);
    let font = Font::new(ABSENT.to_string(), host, built_in());
    assert_eq!(font.emojis.bytes(), &small_font(1004));
    let symbol = FontVec::try_from_vec_and_index(font.symbol.bytes().clone(), font.symbol.index());
    assert!(symbol.is_ok());
    match font.symbol_source {
        SymbolSource::Host => assert_eq!(font.symbol.index(), 1),
        SymbolSource::Bundled => assert_eq!(font.symbol.bytes(), &small_font(1005)),
    }
    let unicode =
        FontVec::try_from_vec_and_index(font.unicode.bytes().clone(), font.unicode.index());
    assert!(unicode.is_ok());
    match font.unicode_source {
        SymbolSource::Host => assert_eq!(font.unicode.index(), 3),
        SymbolSource::Bundled => assert_eq!(font.unicode.bytes(), &small_font(1005)),
    }
}

#[test]
fn installed_family_takes_the_slots_its_faces_offer() {
    let name = "DejaVu Sans Mono";
    let host = ask_host(name, SymbolSource::Bundled);
    let listed: Vec<Option<FontFace>> = host.family.clone();
    let font = Font::new(name.to_string(), host, built_in());
    if listed.is_empty() {
        assert_eq!(font.source, FamilySource::Fallback);
        assert_eq!(font.text.regular.bytes(), &small_font(1000));
    } else {
        assert_eq!(font.source, FamilySource::Host);
    }
    let usable = |face: &Option<FontFace>, slot: Slot| -> bool {
        face.as_ref().is_some_and(|face| {
            classify(face.style, face.weight) == Some(slot)
                && face.data.as_ref().is_some_and(|data| data.loads)
        })
    };
    let built_in_faces = [small_font(1000), small_font(1001), small_font(1002), small_font(1003)];
    let slots = [Slot::Regular, Slot::Bold, Slot::Italic, Slot::BoldItalic];
    for (slot, built_in_face) in slots.into_iter().zip(built_in_faces) {
        let held = font.text.get(slot);
        assert_eq!(held.index(), 0);
        assert!(FontVec::try_from_vec_and_index(held.bytes().clone(), 0).is_ok());
        match listed.iter().rev().find(|face| usable(face, slot)) {
            Some(Some(last)) => {
                assert_eq!(Some(held.bytes()), last.data.as_ref().map(|data| &data.bytes))
            }
            _ => assert_eq!(held.bytes(), &built_in_face),
        }
    }
    for skipped in &font.skipped {
        let face = &listed[skipped.face];
        match skipped.reason {
            Skip::Load => assert!(face.is_none()),
            Skip::Bytes => assert!(face.as_ref().is_some_and(|face| face.data.is_none())),
            Skip::Parse => assert!(face
                .as_ref()
                .is_some_and(|face| face.data.as_ref().is_some_and(|data| !data.loads))),
        }
    }
    assert_eq!(font.emojis.bytes(), &small_font(1004));
}
