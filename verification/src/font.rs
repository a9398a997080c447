//! Font resolution: from a requested family name, the faces that the host
//! listed for it and the built-in faces, to the bundle that the glyph engine
//! is loaded with.
//!
//! The host font system is asked by the embedding program; `Font::request`
//! says what to ask, and `Font::new` takes the answer. Resolution never
//! fails. Every slot starts as a built-in face and is replaced only by a
//! face that loads, so a bundle is always complete. What was passed over on
//! the way is reported with the bundle.

use vstd::prelude::*;
use vstd::string::*;
use crate::face::classify;
use crate::face::faces_of;
use crate::face::file_of;
use crate::face::File;
use crate::face::listed;
use crate::face::offer;
use crate::face::skip_reason;
use crate::face::slot_for;
use crate::face::Face;
use crate::face::FontBytes;
use crate::face::FontData;
use crate::face::FontFace;
use crate::face::FontFile;
use crate::face::Skip;
use crate::face::Skipped;
use crate::face::Slot;
use crate::face::Style;
use crate::name::contains_nul;
use crate::name::has_nul;
use crate::name::is_default_font;
use crate::name::is_default_name;

verus! {

/// The PostScript name of the host font that symbols are drawn with.
pub const SYMBOL_FONT_NAME: &'static str = "Apple Symbols";

/// The PostScript name of the host font that covers the rest of Unicode.
pub const UNICODE_FONT_NAME: &'static str = "Arial Unicode MS";

/// The index of the symbol face within its host font file.
pub const SYMBOL_FACE_INDEX: u32 = 1;

/// The index of the Unicode face within its host font file.
pub const UNICODE_FACE_INDEX: u32 = 3;

/// The four text faces as values.
pub struct TextFaces {
    pub regular: FontBytes,
    pub bold: FontBytes,
    pub italic: FontBytes,
    pub bold_italic: FontBytes,
}

impl TextFaces {
    /// The face in `slot`.
    pub open spec fn get(self, slot: Slot) -> FontBytes {
        match slot {
            Slot::Regular => self.regular,
            Slot::Bold => self.bold,
            Slot::Italic => self.italic,
            Slot::BoldItalic => self.bold_italic,
        }
    }

    /// These faces with `font` in `slot`.
    pub open spec fn with(self, slot: Slot, font: FontBytes) -> TextFaces {
        match slot {
            Slot::Regular => TextFaces { regular: font, ..self },
            Slot::Bold => TextFaces { bold: font, ..self },
            Slot::Italic => TextFaces { italic: font, ..self },
            Slot::BoldItalic => TextFaces { bold_italic: font, ..self },
        }
    }
}

/// The text faces after one listed face has been looked at: the face takes
/// the slot it offers to fill, and changes nothing otherwise.
pub open spec fn place(text: TextFaces, face: Option<Face>) -> TextFaces {
    match offer(face) {
        Some((slot, font)) => text.with(slot, font),
        None => text,
    }
}

/// The text faces after the listed faces of a family have been looked at in
/// order. A later face replaces an earlier one in the same slot.
pub open spec fn place_all(text: TextFaces, faces: Seq<Option<Face>>) -> TextFaces
    decreases faces.len(),
{
    if faces.len() == 0 {
        text
    } else {
        place(place_all(text, faces.drop_last()), faces.last())
    }
}

/// The listed faces that are passed over, in the order of the list, each
/// with its place in the list and the reason.
pub open spec fn skipped(faces: Seq<Option<Face>>) -> Seq<Skipped>
    decreases faces.len(),
{
    if faces.len() == 0 {
        Seq::empty()
    } else {
        match skip_reason(faces.last()) {
            Some(reason) => skipped(faces.drop_last()).push(
                Skipped { face: (faces.len() - 1) as usize, reason },
            ),
            None => skipped(faces.drop_last()),
        }
    }
}

/// The four typefaces that text is drawn with. No slot is ever empty.
#[derive(Debug)]
pub struct ComposedFontArc {
    pub regular: FontData,
    pub bold: FontData,
    pub italic: FontData,
    pub bold_italic: FontData,
}

impl View for ComposedFontArc {
    type V = TextFaces;

    open spec fn view(&self) -> TextFaces {
        TextFaces {
            regular: self.regular@,
            bold: self.bold@,
            italic: self.italic@,
            bold_italic: self.bold_italic@,
        }
    }
}

impl Clone for ComposedFontArc {
    fn clone(&self) -> (copy: Self)
        ensures
            copy@ == self@,
    {
        ComposedFontArc {
            regular: self.regular.clone(),
            bold: self.bold.clone(),
            italic: self.italic.clone(),
            bold_italic: self.bold_italic.clone(),
        }
    }
}

impl ComposedFontArc {
    /// The face in `slot`.
    pub fn get(&self, slot: Slot) -> (font: &FontData)
        ensures
            font@ == self@.get(slot),
    {
        match slot {
            Slot::Regular => &self.regular,
            Slot::Bold => &self.bold,
            Slot::Italic => &self.italic,
            Slot::BoldItalic => &self.bold_italic,
        }
    }

    /// Puts `font` in `slot` and leaves the other three slots as they are.
    pub fn set(&mut self, slot: Slot, font: FontData)
        ensures
            final(self)@ == old(self)@.with(slot, font@),
    {
        match slot {
            Slot::Regular => {
                self.regular = font;
            },
            Slot::Bold => {
                self.bold = font;
            },
            Slot::Italic => {
                self.italic = font;
            },
            Slot::BoldItalic => {
                self.bold_italic = font;
            },
        }
    }

    /// Looks at one listed face: if it loaded, its style and weight give it
    /// a slot and its bytes load as a single font, it takes that slot. Says
    /// why the face was passed over, if it was.
    pub fn place(&mut self, face: &Option<FontFace>) -> (passed_over: Option<Skip>)
        ensures
            final(self)@ == place(old(self)@, listed(*face)),
            passed_over == skip_reason(listed(*face)),
    {
        match face {
            None => Some(Skip::Load),
            Some(face) => match classify(face.style, face.weight) {
                None => None,
                Some(slot) => match &face.data {
                    None => Some(Skip::Bytes),
                    Some(file) => match FontData::new(file.clone(), 0) {
                        None => Some(Skip::Parse),
                        Some(font) => {
                            self.set(slot, font);
                            None
                        },
                    },
                },
            },
        }
    }

    /// Looks at the listed faces of a family in order. Of several faces for
    /// one slot the last one stays. Returns the faces that were passed over.
    pub fn place_all(&mut self, family: &Vec<Option<FontFace>>) -> (passed_over: Vec<Skipped>)
        ensures
            final(self)@ == place_all(old(self)@, faces_of(family@)),
            passed_over@ == skipped(faces_of(family@)),
    {
        let mut passed_over: Vec<Skipped> = Vec::new();
        let mut i: usize = 0;
        while i < family.len()
            invariant
                i <= family@.len(),
                self@ == place_all(old(self)@, faces_of(family@).take(i as int)),
                passed_over@ == skipped(faces_of(family@).take(i as int)),
            decreases family@.len() - i,
        {
            proof {
                let seen = faces_of(family@).take(i as int + 1);
                assert(seen.drop_last() =~= faces_of(family@).take(i as int));
                assert(seen.last() == listed(family@[i as int]));
            }
            match self.place(&family[i]) {
                Some(reason) => {
                    passed_over.push(Skipped { face: i, reason });
                },
                None => {},
            }
            i += 1;
        }
        proof {
            assert(faces_of(family@).take(i as int) =~= faces_of(family@));
        }
        passed_over
    }
}

/// The built-in faces as values.
pub struct Bundle {
    pub regular: FontBytes,
    pub bold: FontBytes,
    pub italic: FontBytes,
    pub bold_italic: FontBytes,
    pub emoji: FontBytes,
    pub fallback: FontBytes,
}

impl Bundle {
    /// The built-in text faces.
    pub open spec fn text(self) -> TextFaces {
        TextFaces {
            regular: self.regular,
            bold: self.bold,
            italic: self.italic,
            bold_italic: self.bold_italic,
        }
    }
}

/// The faces that ship with the program: four text faces, the emoji face,
/// and one face that stands in for symbols and for the rest of Unicode.
#[derive(Debug)]
pub struct BundledFonts {
    pub regular: FontData,
    pub bold: FontData,
    pub italic: FontData,
    pub bold_italic: FontData,
    pub emoji: FontData,
    pub fallback: FontData,
}

impl View for BundledFonts {
    type V = Bundle;

    open spec fn view(&self) -> Bundle {
        Bundle {
            regular: self.regular@,
            bold: self.bold@,
            italic: self.italic@,
            bold_italic: self.bold_italic@,
            emoji: self.emoji@,
            fallback: self.fallback@,
        }
    }
}

/// A single font file's bytes as a font program.
pub open spec fn single(bytes: Seq<u8>) -> FontBytes {
    FontBytes { bytes, index: 0 }
}

impl BundledFonts {
    /// Takes six font files as the built-in faces. Each must load as a
    /// single font; if one does not, there is no bundle.
    pub fn new(
        regular: FontFile,
        bold: FontFile,
        italic: FontFile,
        bold_italic: FontFile,
        emoji: FontFile,
        fallback: FontFile,
    ) -> (bundled: Option<BundledFonts>)
        ensures
            bundled is Some <==> regular.loads && bold.loads && italic.loads && bold_italic.loads
                && emoji.loads && fallback.loads,
            bundled matches Some(b) ==> b@ == (Bundle {
                regular: single(regular.bytes@),
                bold: single(bold.bytes@),
                italic: single(italic.bytes@),
                bold_italic: single(bold_italic.bytes@),
                emoji: single(emoji.bytes@),
                fallback: single(fallback.bytes@),
            }),
    {
        let regular = match FontData::new(regular, 0) {
            Some(font) => font,
            None => {
                return None;
            },
        };
        let bold = match FontData::new(bold, 0) {
            Some(font) => font,
            None => {
                return None;
            },
        };
        let italic = match FontData::new(italic, 0) {
            Some(font) => font,
            None => {
                return None;
            },
        };
        let bold_italic = match FontData::new(bold_italic, 0) {
            Some(font) => font,
            None => {
                return None;
            },
        };
        let emoji = match FontData::new(emoji, 0) {
            Some(font) => font,
            None => {
                return None;
            },
        };
        let fallback = match FontData::new(fallback, 0) {
            Some(font) => font,
            None => {
                return None;
            },
        };
        Some(BundledFonts { regular, bold, italic, bold_italic, emoji, fallback })
    }
}

/// Where the symbol face or the Unicode face is taken from.
#[derive(Clone, Copy, Debug, PartialEq, Eq, Structural)]
pub enum SymbolSource {
    /// From the built-in fallback face.
    Bundled,
    /// From the host, by its PostScript name.
    Host,
}

/// What the host font system is to be asked for one resolution.
#[derive(Clone, Copy, Debug, PartialEq, Eq, Structural)]
pub struct HostRequest {
    /// Whether to list the faces of the requested family.
    pub family: bool,
    /// Whether to look up the symbol font by `SYMBOL_FONT_NAME`.
    pub symbol: bool,
    /// Whether to look up the Unicode font by `UNICODE_FONT_NAME`.
    pub unicode: bool,
}

/// What the host is asked for a name: its family unless the name is the
/// built-in one or holds a zero byte, which no host takes in a name; and the
/// two auxiliary fonts where they are to come from the host.
pub open spec fn request_for(name: &str, symbols: SymbolSource) -> HostRequest {
    HostRequest {
        family: !is_default_name(name@) && !has_nul(name.spec_bytes()),
        symbol: symbols is Host,
        unicode: symbols is Host,
    }
}

/// Where the text faces of a bundle come from.
#[derive(Clone, Copy, Debug, PartialEq, Eq, Structural)]
pub enum FamilySource {
    /// The built-in family was asked for.
    BuiltIn,
    /// The host lists faces for the requested family.
    Host,
    /// The host lists no face for the requested family; the built-in faces
    /// stand in. The caller may want to log this.
    Fallback,
}

/// What the host gave, as values.
pub struct HostFaces {
    pub family: Seq<Option<Face>>,
    pub symbol: Option<File>,
    pub unicode: Option<File>,
}

/// What the host font system gave for one request: the faces it lists for
/// the family, each with what loading it gave, and the files of the symbol
/// and Unicode fonts where it was asked for them and has them.
///
/// The list is empty where the host has no such family or was not asked. A
/// listed face that did not load is `None`. The file of a family face is
/// meant for index 0, that of the symbol font for `SYMBOL_FACE_INDEX`, and
/// that of the Unicode font for `UNICODE_FACE_INDEX`.
#[derive(Debug)]
pub struct HostFonts {
    pub family: Vec<Option<FontFace>>,
    pub symbol: Option<FontFile>,
    pub unicode: Option<FontFile>,
}

impl View for HostFonts {
    type V = HostFaces;

    open spec fn view(&self) -> HostFaces {
        HostFaces {
            family: faces_of(self.family@),
            symbol: file_of(self.symbol),
            unicode: file_of(self.unicode),
        }
    }
}

/// The text faces for a request: the built-in ones for the built-in name,
/// whatever the host has; else the built-in ones with the host's faces
/// placed over them.
pub open spec fn resolved_text(name: Seq<char>, family: Seq<Option<Face>>, bundled: Bundle)
    -> TextFaces {
    if is_default_name(name) {
        bundled.text()
    } else {
        place_all(bundled.text(), family)
    }
}

/// The faces passed over for a request: none for the built-in name, for
/// which the host's faces are not looked at.
pub open spec fn resolved_skipped(name: Seq<char>, family: Seq<Option<Face>>) -> Seq<Skipped> {
    if is_default_name(name) {
        Seq::empty()
    } else {
        skipped(family)
    }
}

/// Where the text faces for a request come from.
pub open spec fn family_source(name: Seq<char>, family: Seq<Option<Face>>) -> FamilySource {
    if is_default_name(name) {
        FamilySource::BuiltIn
    } else if family.len() == 0 {
        FamilySource::Fallback
    } else {
        FamilySource::Host
    }
}

/// Where an auxiliary face comes from: the host, if it gave a file and the
/// file loads; else the built-in fallback face.
pub open spec fn aux_source(host: Option<File>) -> SymbolSource {
    match host {
        Some(file) => if file.loads {
            SymbolSource::Host
        } else {
            SymbolSource::Bundled
        },
        None => SymbolSource::Bundled,
    }
}

/// An auxiliary face: the host's file with its face at `index`, where the
/// face comes from the host; else the built-in fallback face.
pub open spec fn resolved_aux(host: Option<File>, index: u32, fallback: FontBytes) -> FontBytes {
    match host {
        Some(file) => if file.loads {
            FontBytes { bytes: file.bytes, index }
        } else {
            fallback
        },
        None => fallback,
    }
}

/// A resolved bundle as a value.
pub struct Fonts {
    pub text: TextFaces,
    pub symbol: FontBytes,
    pub emojis: FontBytes,
    pub unicode: FontBytes,
    pub source: FamilySource,
    pub skipped: Seq<Skipped>,
    pub symbol_source: SymbolSource,
    pub unicode_source: SymbolSource,
}

/// The bundle for a request, given what the host reported.
pub open spec fn resolved(name: Seq<char>, host: HostFaces, bundled: Bundle) -> Fonts {
    Fonts {
        text: resolved_text(name, host.family, bundled),
        symbol: resolved_aux(host.symbol, SYMBOL_FACE_INDEX, bundled.fallback),
        emojis: bundled.emoji,
        unicode: resolved_aux(host.unicode, UNICODE_FACE_INDEX, bundled.fallback),
        source: family_source(name, host.family),
        skipped: resolved_skipped(name, host.family),
        symbol_source: aux_source(host.symbol),
        unicode_source: aux_source(host.unicode),
    }
}

/// The fonts that the glyph engine is loaded with: the text faces, and the
/// faces for symbols, emoji and the rest of Unicode. With them: where the
/// text faces come from, which listed faces were passed over, and whether
/// the symbol and Unicode faces are the host's or the fallback. Where the
/// host was asked for one of the two and the fallback stands in, the caller
/// may want to log it.
#[derive(Debug)]
pub struct Font {
    pub text: ComposedFontArc,
    pub symbol: FontData,
    pub emojis: FontData,
    pub unicode: FontData,
    pub source: FamilySource,
    pub skipped: Vec<Skipped>,
    pub symbol_source: SymbolSource,
    pub unicode_source: SymbolSource,
}

impl View for Font {
    type V = Fonts;

    open spec fn view(&self) -> Fonts {
        Fonts {
            text: self.text@,
            symbol: self.symbol@,
            emojis: self.emojis@,
            unicode: self.unicode@,
            source: self.source,
            skipped: self.skipped@,
            symbol_source: self.symbol_source,
            unicode_source: self.unicode_source,
        }
    }
}

/// Picks an auxiliary face: the host's file if it loads, with its face at
/// `index`; else a copy of the fallback face. Says which of the two it is.
fn auxiliary(host: Option<FontFile>, index: u32, fallback: &FontData) -> (picked: (
    FontData,
    SymbolSource,
))
    ensures
        picked.0@ == resolved_aux(file_of(host), index, fallback@),
        picked.1 == aux_source(file_of(host)),
{
    match host {
        None => (fallback.clone(), SymbolSource::Bundled),
        Some(file) => match FontData::new(file, index) {
            Some(font) => (font, SymbolSource::Host),
            None => (fallback.clone(), SymbolSource::Bundled),
        },
    }
}

impl Font {
    /// Says what to ask the host font system for `font_name`.
    ///
    /// The family is not asked for where the name is the built-in one, nor
    /// where it holds a zero byte. The symbol and Unicode fonts are asked
    /// for only where `symbols` says that they come from the host.
    pub fn request(font_name: &str, symbols: SymbolSource) -> (request: HostRequest)
        ensures
            request == request_for(font_name, symbols),
    {
        let family = !is_default_font(font_name) && !contains_nul(font_name);
        let auxiliary = match symbols {
            SymbolSource::Host => true,
            SymbolSource::Bundled => false,
        };
        HostRequest { family, symbol: auxiliary, unicode: auxiliary }
    }

    /// Builds the bundle for `font_name` from what the host reported and
    /// from the built-in faces.
    ///
    /// For the built-in name the host's faces are not looked at. For any
    /// other name each text slot holds the last listed face that offers to
    /// fill it, or the built-in face if there is none; the faces that were
    /// passed over are reported in the order of the list. The emoji face is
    /// always the built-in one.
    pub fn new(font_name: String, host: HostFonts, bundled: BundledFonts) -> (font: Font)
        ensures
            font@ == resolved(font_name@, host@, bundled@),
    {
        let BundledFonts { regular, bold, italic, bold_italic, emoji, fallback } = bundled;
        let HostFonts { family, symbol, unicode } = host;
        let mut text = ComposedFontArc { regular, bold, italic, bold_italic };
        let mut skipped: Vec<Skipped> = Vec::new();
        let source = if is_default_font(font_name.as_str()) {
            FamilySource::BuiltIn
        } else {
            skipped = text.place_all(&family);
            if family.len() == 0 {
                FamilySource::Fallback
            } else {
                FamilySource::Host
            }
        };
        let (symbol, symbol_source) = auxiliary(symbol, SYMBOL_FACE_INDEX, &fallback);
        let (unicode, unicode_source) = auxiliary(unicode, UNICODE_FACE_INDEX, &fallback);
        Font {
            text,
            symbol,
            emojis: emoji,
            unicode,
            source,
            skipped,
            symbol_source,
            unicode_source,
        }
    }
}

/// A family for which the host lists nothing leaves all four text slots
/// with the built-in faces, and nothing is passed over.
pub proof fn lemma_absent_family(name: Seq<char>, host: HostFaces, bundled: Bundle)
    requires
        host.family.len() == 0,
    ensures
        resolved(name, host, bundled).text == bundled.text(),
        resolved(name, host, bundled).skipped.len() == 0,
        !is_default_name(name) ==> resolved(name, host, bundled).source == FamilySource::Fallback,
{
}

/// The built-in name gives the built-in text faces whatever the host has,
/// and the host is not asked for the family.
pub proof fn lemma_default_name(
    name: &str,
    symbols: SymbolSource,
    host: HostFaces,
    bundled: Bundle,
)
    requires
        is_default_name(name@),
    ensures
        !request_for(name, symbols).family,
        resolved(name@, host, bundled).text == bundled.text(),
        resolved(name@, host, bundled).source == FamilySource::BuiltIn,
        resolved(name@, host, bundled).skipped.len() == 0,
{
}

/// A face that offers nothing leaves the text faces as they were. Such are
/// all oblique faces and all faces whose weight is none of the six listed
/// values, 450 and 900 among them; none of them is reported as passed over.
pub proof fn lemma_unplaced(text: TextFaces, face: Face)
    requires
        face.style == Style::Oblique || face.weight == 450 || face.weight == 900 || slot_for(
            face.style,
            face.weight,
        ) is None,
    ensures
        place(text, Some(face)) == text,
        skip_reason(Some(face)) is None,
{
}

/// A family of which no face offers anything leaves all four text slots as
/// they were.
pub proof fn lemma_family_unplaced(text: TextFaces, faces: Seq<Option<Face>>)
    requires
        forall|j: int| 0 <= j < faces.len() ==> offer(#[trigger] faces[j]) is None,
    ensures
        place_all(text, faces) == text,
    decreases faces.len(),
{
    if faces.len() > 0 {
        let before = faces.drop_last();
        assert forall|j: int| 0 <= j < before.len() implies offer(#[trigger] before[j])
            is None by {
            assert(before[j] == faces[j]);
        }
        lemma_family_unplaced(text, before);
        assert(faces.last() == faces[faces.len() - 1]);
    }
}

/// A slot that no face of the family offers to fill keeps the face it had.
pub proof fn lemma_unmatched_slot(text: TextFaces, faces: Seq<Option<Face>>, slot: Slot)
    requires
        forall|j: int| 0 <= j < faces.len() ==> !(offer(#[trigger] faces[j]) matches Some(o)
            && o.0 == slot),
    ensures
        place_all(text, faces).get(slot) == text.get(slot),
    decreases faces.len(),
{
    if faces.len() > 0 {
        let before = faces.drop_last();
        assert forall|j: int| 0 <= j < before.len() implies !(offer(#[trigger] before[j])
            matches Some(o) && o.0 == slot) by {
            assert(before[j] == faces[j]);
        }
        lemma_unmatched_slot(text, before, slot);
        assert(faces.last() == faces[faces.len() - 1]);
    }
}

/// Last match wins: if face `i` offers to fill `slot` and no later face of
/// the family does, then after resolution `slot` holds the bytes of face
/// `i`. So the regular slot holds the bytes of the last upright face of
/// weight 300, 400 or 500 whose bytes load.
pub proof fn lemma_last_match_wins(text: TextFaces, faces: Seq<Option<Face>>, i: int, slot: Slot)
    requires
        0 <= i < faces.len(),
        offer(faces[i]) matches Some(o) && o.0 == slot,
        forall|j: int| i < j < faces.len() ==> !(offer(#[trigger] faces[j]) matches Some(o)
            && o.0 == slot),
    ensures
        faces[i] matches Some(face) && face.data is Some,
        place_all(text, faces).get(slot) == single(faces[i]->0.data->0.bytes),
    decreases faces.len(),
{
    let before = faces.drop_last();
    if i == faces.len() - 1 {
        assert(faces.last() == faces[i]);
    } else {
        assert(before[i] == faces[i]);
        assert forall|j: int| i < j < before.len() implies !(offer(#[trigger] before[j])
            matches Some(o) && o.0 == slot) by {
            assert(before[j] == faces[j]);
        }
        lemma_last_match_wins(text, before, i, slot);
        assert(faces.last() == faces[faces.len() - 1]);
    }
}

/// For a name other than the built-in one: if face `i` of the family is
/// upright with weight 400, its file was had and loads as a single font,
/// and no later face offers to fill the regular slot, then the regular slot
/// of the bundle holds the bytes of face `i`.
pub proof fn lemma_regular_slot(
    name: Seq<char>,
    host: HostFaces,
    bundled: Bundle,
    i: int,
    bytes: Seq<u8>,
)
    requires
        !is_default_name(name),
        0 <= i < host.family.len(),
        host.family[i] == Some(
            Face { style: Style::Normal, weight: 400, data: Some(File { bytes, loads: true }) },
        ),
        forall|j: int|
            i < j < host.family.len() ==> !(offer(#[trigger] host.family[j]) matches Some(o)
                && o.0 == Slot::Regular),
    ensures
        resolved(name, host, bundled).text.regular == single(bytes),
{
    lemma_last_match_wins(bundled.text(), host.family, i, Slot::Regular);
}

/// Every listed face that is passed over is reported, with its place in the
/// list and the reason, and nothing else is: a face that did not load, and
/// a face with a slot whose bytes could not be had or are no font.
pub proof fn lemma_skipped_reported(faces: Seq<Option<Face>>, i: int, reason: Skip)
    requires
        faces.len() <= usize::MAX,
        0 <= i < faces.len(),
    ensures
        skipped(faces).contains(Skipped { face: i as usize, reason }) <==> skip_reason(faces[i])
            == Some(reason),
        forall|k: int|
            0 <= k < skipped(faces).len() ==> (#[trigger] skipped(faces)[k]).face < faces.len(),
    decreases faces.len(),
{
    let before = faces.drop_last();
    let entry = Skipped { face: i as usize, reason };
    let last = (faces.len() - 1) as usize;
    lemma_skipped_bound(before);
    lemma_skipped_bound(faces);
    if i < faces.len() - 1 {
        lemma_skipped_reported(before, i, reason);
        assert(before[i] == faces[i]);
    }
    match skip_reason(faces.last()) {
        Some(found) => {
            let added = Skipped { face: last, reason: found };
            assert(skipped(faces) == skipped(before).push(added));
            if skipped(faces).contains(entry) {
                let k = choose|k: int| 0 <= k < skipped(faces).len() && skipped(faces)[k] == entry;
                if k < skipped(before).len() {
                    assert(skipped(before)[k] == entry);
                    assert(skipped(before).contains(entry));
                }
            }
            if i == faces.len() - 1 && found == reason {
                assert(skipped(faces)[skipped(before).len() as int] == entry);
            }
            if skipped(before).contains(entry) {
                let k = choose|k: int| 0 <= k < skipped(before).len() && skipped(before)[k]
                    == entry;
                assert(skipped(faces)[k] == entry);
            }
        },
        None => {},
    }
}

proof fn lemma_skipped_bound(faces: Seq<Option<Face>>)
    requires
        faces.len() <= usize::MAX,
    ensures
        forall|k: int|
            0 <= k < skipped(faces).len() ==> (#[trigger] skipped(faces)[k]).face < faces.len(),
    decreases faces.len(),
{
    if faces.len() > 0 {
        lemma_skipped_bound(faces.drop_last());
    }
}

} // verus!
