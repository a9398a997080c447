//! The terminal's surface and what is drawn on it each frame: the size and
//! format the surface is configured with, the bar, and the run of text.

use vstd::prelude::*;
use crate::face::FontBytes;
use crate::face::FontData;
use crate::face::FontFile;
use crate::font::single;
use crate::frame::FrameState;
use crate::frame::FrameStep;

verus! {

/// Width in pixels kept free beside the text.
pub const TEXT_MARGIN: u32 = 40;

/// Where text starts, in pixels from the left edge of the surface.
pub const TEXT_LEFT: u32 = 24;

/// Where text starts, in pixels from the top edge of the surface.
pub const TEXT_TOP: u32 = 120;

/// The height of the text in pixels.
pub const TEXT_SCALE: u32 = 36;

/// The size in bytes of one chunk of the staging buffers.
pub const STAGING_CHUNK_SIZE: u64 = 64;

/// A size in physical pixels.
#[derive(Clone, Copy, Debug, PartialEq, Eq, Structural)]
pub struct Size {
    pub width: u32,
    pub height: u32,
}

/// A colour with eight bits for each of red, green, blue and opacity.
#[derive(Clone, Copy, Debug, PartialEq, Eq, Structural)]
pub struct Color {
    pub r: u8,
    pub g: u8,
    pub b: u8,
    pub a: u8,
}

/// The colour of text: opaque white.
pub open spec fn text_color() -> Color {
    Color { r: 255, g: 255, b: 255, a: 255 }
}

/// The pixel formats a surface can be given.
#[derive(Clone, Copy, Debug, PartialEq, Eq, Structural)]
pub enum PixelFormat {
    Bgra8UnormSrgb,
    Bgra8Unorm,
    Rgba8UnormSrgb,
    Rgba8Unorm,
}

/// When finished images are shown.
#[derive(Clone, Copy, Debug, PartialEq, Eq, Structural)]
pub enum PresentMode {
    /// In step with the display's refresh, in whatever way the device has.
    AutoVsync,
    /// As soon as they are finished, in whatever way the device has.
    AutoNoVsync,
    Fifo,
    FifoRelaxed,
    Immediate,
    Mailbox,
}

/// What a surface is configured with. Both sides are at least one pixel.
#[derive(Clone, Copy, Debug, PartialEq, Eq, Structural)]
pub struct SurfaceConfig {
    pub format: PixelFormat,
    pub width: u32,
    pub height: u32,
    pub present_mode: PresentMode,
}

/// Why a terminal cannot be set up.
#[derive(Clone, Copy, Debug, PartialEq, Eq, Structural)]
pub enum TermError {
    /// The surface would have no pixels.
    EmptySurface,
    /// The file given for the text font is no font.
    InvalidFont,
}

/// Whether a surface of this size has pixels.
pub open spec fn presentable(size: Size) -> bool {
    size.width > 0 && size.height > 0
}

/// The configuration of a surface of the given size and format. Images are
/// always shown in step with the display.
pub open spec fn config_for(size: Size, format: PixelFormat) -> SurfaceConfig {
    SurfaceConfig {
        format,
        width: size.width,
        height: size.height,
        present_mode: PresentMode::AutoVsync,
    }
}

/// The bar's part of the render pass: the colour the target is cleared to,
/// and the one indexed draw call, over a range of indices, from a base
/// vertex, for a number of instances.
#[derive(Clone, Copy, Debug, PartialEq, Eq, Structural)]
pub struct BarPass {
    pub clear: Color,
    pub first_index: u32,
    pub end_index: u32,
    pub base_vertex: i32,
    pub instances: u32,
}

/// The text that is queued for a frame.
pub struct Run {
    pub left: u32,
    pub top: u32,
    pub width: u32,
    pub height: u32,
    pub scale: u32,
    pub color: Color,
    pub text: Seq<char>,
}

/// One run of text: where it starts, the box it is laid out in, its height
/// and colour, and the text itself.
#[derive(Debug)]
pub struct TextRun {
    pub left: u32,
    pub top: u32,
    pub width: u32,
    pub height: u32,
    pub scale: u32,
    pub color: Color,
    pub text: String,
}

impl View for TextRun {
    type V = Run;

    open spec fn view(&self) -> Run {
        Run {
            left: self.left,
            top: self.top,
            width: self.width,
            height: self.height,
            scale: self.scale,
            color: self.color,
            text: self.text@,
        }
    }
}

/// The width left for text on a surface of the given width: what is left
/// beside the margin, and nothing where the surface is narrower than the
/// margin.
pub open spec fn text_width(width: u32) -> u32 {
    if width >= TEXT_MARGIN {
        (width - TEXT_MARGIN) as u32
    } else {
        0
    }
}

/// The run that shows `text` on a surface of the given size: it starts at
/// the fixed origin and is laid out in a box as high as the surface and
/// narrower than it by the margin.
pub open spec fn run_for(size: Size, text: Seq<char>) -> Run {
    Run {
        left: TEXT_LEFT,
        top: TEXT_TOP,
        width: text_width(size.width),
        height: size.height,
        scale: TEXT_SCALE,
        color: text_color(),
        text,
    }
}

/// The terminal's view of its surface: the size and format it is configured
/// with, the background colour, the number of indices of the bar, and the
/// font that its text is drawn with.
#[derive(Debug)]
pub struct Term {
    size: Size,
    render_format: PixelFormat,
    background: Color,
    bar_indices: u32,
    font: FontData,
}

impl Term {
    #[verifier::type_invariant]
    spec fn inv(self) -> bool {
        presentable(self.size)
    }

    /// The size of the surface.
    pub closed spec fn size(self) -> Size {
        self.size
    }

    /// The pixel format of the surface.
    pub closed spec fn render_format(self) -> PixelFormat {
        self.render_format
    }

    /// The colour the target is cleared to.
    pub closed spec fn background(self) -> Color {
        self.background
    }

    /// The number of indices of the bar's geometry.
    pub closed spec fn bar_indices(self) -> u32 {
        self.bar_indices
    }

    /// The font that text is drawn with.
    pub closed spec fn font(self) -> FontBytes {
        self.font@
    }

    /// Sets up the terminal for a surface of the given size, with the file
    /// of the font that its text is drawn with.
    ///
    /// The format is fixed. A size without pixels is refused, and so is a
    /// file that does not load as a single font; otherwise
    /// `configure_surface` gives the configuration to apply before the first
    /// frame.
    pub fn new(size: Size, background: Color, bar_indices: u32, font: FontFile) -> (term: Result<
        Term,
        TermError,
    >)
        ensures
            term is Ok <==> presentable(size) && font.loads,
            term matches Ok(t) ==> t.size() == size && t.render_format()
                == PixelFormat::Bgra8UnormSrgb && t.background() == background && t.bar_indices()
                == bar_indices && t.font() == single(font.bytes@),
            term matches Err(e) ==> e == if presentable(size) {
                TermError::InvalidFont
            } else {
                TermError::EmptySurface
            },
    {
        if size.width == 0 || size.height == 0 {
            return Err(TermError::EmptySurface);
        }
        match FontData::new(font, 0) {
            None => Err(TermError::InvalidFont),
            Some(font) => Ok(
                Term {
                    size,
                    render_format: PixelFormat::Bgra8UnormSrgb,
                    background,
                    bar_indices,
                    font,
                },
            ),
        }
    }

    /// The font that text is drawn with.
    pub fn text_font(&self) -> (font: &FontData)
        ensures
            font@ == self.font(),
    {
        &self.font
    }

    /// The size the surface is configured with; it has pixels.
    pub fn surface_size(&self) -> (size: Size)
        ensures
            size == self.size(),
            presentable(size),
    {
        proof {
            use_type_invariant(self);
        }
        self.size
    }

    /// The configuration of the surface as it stands.
    pub fn configure_surface(&self) -> (config: SurfaceConfig)
        ensures
            config == config_for(self.size(), self.render_format()),
            config.width > 0 && config.height > 0,
    {
        proof {
            use_type_invariant(self);
        }
        SurfaceConfig {
            format: self.render_format,
            width: self.size.width,
            height: self.size.height,
            present_mode: PresentMode::AutoVsync,
        }
    }

    /// Takes a new size for the surface.
    ///
    /// A size without pixels is refused: the terminal keeps the size it had
    /// and there is nothing to configure. Any other size is taken, and the
    /// configuration returned is to be applied before the next frame.
    pub fn set_size(&mut self, new_size: Size) -> (config: Option<SurfaceConfig>)
        ensures
            config is Some <==> presentable(new_size),
            final(self).size() == if presentable(new_size) {
                new_size
            } else {
                old(self).size()
            },
            final(self).render_format() == old(self).render_format(),
            final(self).background() == old(self).background(),
            final(self).bar_indices() == old(self).bar_indices(),
            final(self).font() == old(self).font(),
            config matches Some(c) ==> c == config_for(new_size, old(self).render_format()),
    {
        proof {
            use_type_invariant(&*self);
        }
        if new_size.width == 0 || new_size.height == 0 {
            None
        } else {
            self.size = new_size;
            Some(self.configure_surface())
        }
    }

    /// Starts a frame: its first step is pending.
    pub fn draw(&self) -> (frame: FrameState)
        ensures
            frame == FrameState::Running(FrameStep::AcquireImage),
    {
        FrameState::begin()
    }

    /// The bar's part of the render pass: clear to the background, then one
    /// indexed draw call over all indices of the bar.
    pub fn bar_pass(&self) -> (pass: BarPass)
        ensures
            pass == (BarPass {
                clear: self.background(),
                first_index: 0,
                end_index: self.bar_indices(),
                base_vertex: 0,
                instances: 1,
            }),
    {
        BarPass {
            clear: self.background,
            first_index: 0,
            end_index: self.bar_indices,
            base_vertex: 0,
            instances: 1,
        }
    }

    /// The run of text for this frame. An empty text gives a run like any
    /// other. On a surface narrower than the margin the box has no width.
    pub fn text_run(&self, text: &str) -> (run: TextRun)
        ensures
            run@ == run_for(self.size(), text@),
    {
        let width: u32 = if self.size.width >= TEXT_MARGIN {
            self.size.width - TEXT_MARGIN
        } else {
            0
        };
        TextRun {
            left: TEXT_LEFT,
            top: TEXT_TOP,
            width,
            height: self.size.height,
            scale: TEXT_SCALE,
            color: Color { r: 255, g: 255, b: 255, a: 255 },
            text: text.to_owned(),
        }
    }
}

} // verus!
