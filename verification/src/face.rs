//! Font faces as the resolver sees them: a style, a weight, a font file,
//! and the text slot that a face of that style and weight belongs to.
//!
//! Whether a file is a font is for the glyph engine's parser to say. The
//! embedding program asks it and hands each file over with the answer.

use vstd::prelude::*;

verus! {

/// The slant axis of a face.
#[derive(Clone, Copy, Debug, PartialEq, Eq, Structural)]
pub enum Style {
    Normal,
    Italic,
    Oblique,
}

/// One of the four typefaces that text is drawn with.
#[derive(Clone, Copy, Debug, PartialEq, Eq, Structural)]
pub enum Slot {
    Regular,
    Bold,
    Italic,
    BoldItalic,
}

/// The slot that a face of the given style and rounded weight fills, if any.
///
/// Upright faces of weight 300, 400 or 500 are regular and those of weight
/// 600, 700 or 800 are bold. Italic faces count only at exactly 400 and 700.
/// Oblique faces, and every other weight, fill no slot.
pub open spec fn slot_for(style: Style, weight: i32) -> Option<Slot> {
    match style {
        Style::Normal => {
            if weight == 300 || weight == 400 || weight == 500 {
                Some(Slot::Regular)
            } else if weight == 600 || weight == 700 || weight == 800 {
                Some(Slot::Bold)
            } else {
                None
            }
        },
        Style::Italic => {
            if weight == 400 {
                Some(Slot::Italic)
            } else if weight == 700 {
                Some(Slot::BoldItalic)
            } else {
                None
            }
        },
        Style::Oblique => None,
    }
}

/// Classifies a face by style and rounded weight.
pub fn classify(style: Style, weight: i32) -> (slot: Option<Slot>)
    ensures
        slot == slot_for(style, weight),
{
    match style {
        Style::Normal => match weight {
            300 | 400 | 500 => Some(Slot::Regular),
            600 | 700 | 800 => Some(Slot::Bold),
            _ => None,
        },
        Style::Italic => match weight {
            400 => Some(Slot::Italic),
            700 => Some(Slot::BoldItalic),
            _ => None,
        },
        Style::Oblique => None,
    }
}

/// Oblique faces fill no slot, whatever their weight, and neither does any
/// face whose weight is outside the six listed values; 450 and 900 are two
/// such weights.
pub proof fn lemma_unclassified(style: Style, weight: i32)
    ensures
        slot_for(Style::Oblique, weight) is None,
        slot_for(style, 450) is None,
        slot_for(style, 900) is None,
        weight != 300 && weight != 400 && weight != 500 && weight != 600 && weight != 700
            && weight != 800 ==> slot_for(style, weight) is None,
{
}

/// A font file as a value: its bytes, and whether they load.
pub struct File {
    pub bytes: Seq<u8>,
    pub loads: bool,
}

/// A font file as it is handed over: its bytes, and whether the glyph
/// engine's parser takes them as a font with a face at the index that the
/// file is meant for.
#[derive(Debug)]
pub struct FontFile {
    pub bytes: Vec<u8>,
    pub loads: bool,
}

impl View for FontFile {
    type V = File;

    open spec fn view(&self) -> File {
        File { bytes: self.bytes@, loads: self.loads }
    }
}

impl Clone for FontFile {
    fn clone(&self) -> (copy: Self)
        ensures
            copy@ == self@,
    {
        let bytes = self.bytes.clone();
        assert(bytes@ =~= self.bytes@);
        FontFile { bytes, loads: self.loads }
    }
}

/// A font file that may be missing, as a value.
pub open spec fn file_of(file: Option<FontFile>) -> Option<File> {
    match file {
        Some(file) => Some(file@),
        None => None,
    }
}

/// A font program as a value: the bytes of a font file and the index of the
/// face within it.
pub struct FontBytes {
    pub bytes: Seq<u8>,
    pub index: u32,
}

/// A font program: the bytes of a file that loads, and the index of the
/// face within it.
#[derive(Debug)]
pub struct FontData {
    bytes: Vec<u8>,
    index: u32,
}

impl View for FontData {
    type V = FontBytes;

    closed spec fn view(&self) -> FontBytes {
        FontBytes { bytes: self.bytes@, index: self.index }
    }
}

impl FontData {
    /// Takes a file as a font program with its face at `index`, if the file
    /// loads.
    pub fn new(file: FontFile, index: u32) -> (font: Option<FontData>)
        ensures
            font is Some <==> file.loads,
            font matches Some(f) ==> f@ == (FontBytes { bytes: file.bytes@, index }),
    {
        if file.loads {
            Some(FontData { bytes: file.bytes, index })
        } else {
            None
        }
    }

    /// The bytes of the font file.
    pub fn bytes(&self) -> (bytes: &Vec<u8>)
        ensures
            bytes@ == self@.bytes,
    {
        &self.bytes
    }

    /// The index of the face within the font file.
    pub fn index(&self) -> (index: u32)
        ensures
            index == self@.index,
    {
        self.index
    }
}

impl Clone for FontData {
    fn clone(&self) -> (copy: Self)
        ensures
            copy@ == self@,
    {
        let bytes = self.bytes.clone();
        assert(bytes@ =~= self.bytes@);
        FontData { bytes, index: self.index }
    }
}

/// A face of a family as a value.
pub struct Face {
    pub style: Style,
    pub weight: i32,
    pub data: Option<File>,
}

/// A face that the host font system reported for a family: its style, its
/// weight rounded to an integer, and its font file where it could be had.
#[derive(Debug)]
pub struct FontFace {
    pub style: Style,
    pub weight: i32,
    pub data: Option<FontFile>,
}

impl Clone for FontFace {
    fn clone(&self) -> (copy: Self)
        ensures
            copy@ == self@,
    {
        let data = match &self.data {
            None => None,
            Some(file) => Some(file.clone()),
        };
        FontFace { style: self.style, weight: self.weight, data }
    }
}

impl View for FontFace {
    type V = Face;

    open spec fn view(&self) -> Face {
        Face { style: self.style, weight: self.weight, data: file_of(self.data) }
    }
}

/// A face as the host lists it, as a value: nothing where the face did
/// not load.
pub open spec fn listed(face: Option<FontFace>) -> Option<Face> {
    match face {
        Some(face) => Some(face@),
        None => None,
    }
}

/// The faces that the host lists for a family, each as a value, in the
/// order of enumeration.
pub open spec fn faces_of(family: Seq<Option<FontFace>>) -> Seq<Option<Face>> {
    family.map_values(|face: Option<FontFace>| listed(face))
}

/// What a listed face brings to the text slots: the slot it fills and the
/// font program it fills it with. A face brings nothing if it did not load,
/// if it fills no slot, if its file could not be had, or if the file does
/// not load as a single font.
pub open spec fn offer(face: Option<Face>) -> Option<(Slot, FontBytes)> {
    match face {
        Some(face) => match (slot_for(face.style, face.weight), face.data) {
            (Some(slot), Some(file)) => {
                if file.loads {
                    Some((slot, FontBytes { bytes: file.bytes, index: 0 }))
                } else {
                    None
                }
            },
            _ => None,
        },
        None => None,
    }
}

/// Why a listed face that should have filled a slot was passed over.
#[derive(Clone, Copy, Debug, PartialEq, Eq, Structural)]
pub enum Skip {
    /// The face did not load.
    Load,
    /// The face has a slot, but its file could not be had.
    Bytes,
    /// The face has a slot, but its file is no font.
    Parse,
}

/// A face that was passed over: its place in the host's list and the reason.
/// The caller may want to log it.
#[derive(Clone, Copy, Debug, PartialEq, Eq, Structural)]
pub struct Skipped {
    pub face: usize,
    pub reason: Skip,
}

/// Why a listed face is passed over, if it is. A face that loaded and has
/// no slot is not passed over: nothing was expected of it.
pub open spec fn skip_reason(face: Option<Face>) -> Option<Skip> {
    match face {
        None => Some(Skip::Load),
        Some(face) => match (slot_for(face.style, face.weight), face.data) {
            (Some(_), None) => Some(Skip::Bytes),
            (Some(_), Some(file)) => if file.loads {
                None
            } else {
                Some(Skip::Parse)
            },
            (None, _) => None,
        },
    }
}

} // verus!
