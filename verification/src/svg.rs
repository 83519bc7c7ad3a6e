//! The tray icon's theme and pixel-format conversion.  Rendering the
//! vector icon to a bitmap is the application's job (it needs the SVG
//! renderer); choosing the theme, handing out the icon's SVG text and
//! reordering the rendered channels are verified here.

use vstd::prelude::*;
use vstd::string::StringExecFns;

use crate::strings::str_eq;

verus! {

/// What `str::to_lowercase` returns: the Unicode lowercase form, a
/// function of the characters alone.
pub uninterp spec fn lower_of(s: Seq<char>) -> Seq<char>;

/// Relies on `str::to_lowercase`: the Unicode lowercasing of the
/// string, which depends on its characters alone; an empty string
/// stays empty.
#[verifier::external_body]
fn to_lowercase(s: &str) -> (r: String)
    ensures
        r@ == lower_of(s@),
        s@.len() == 0 ==> r@.len() == 0,
{
    s.to_lowercase()
}

/// The icon theme variant.
#[derive(Debug, Clone, Copy, PartialEq, Eq, Structural)]
pub enum Theme {
    /// Light icon, for dark panels.
    Light,
    /// Dark icon, for light panels.
    Dark,
}

impl Default for Theme {
    /// Light is the default theme.
    fn default() -> (r: Self)
        ensures
            r is Light,
    {
        Theme::Light
    }
}

impl Theme {
    /// Chooses the theme from a configured value, as the application
    /// read it from the theme environment variable: "dark" in any
    /// letter case selects the dark icon, anything else (including an
    /// unset variable) the light one.
    pub fn from_setting(value: Option<&String>) -> (r: Theme)
        ensures
            value is None ==> r is Light,
            value matches Some(s) ==> (r is Dark <==> lower_of(s@) == "dark"@),
    {
        match value {
            None => Theme::Light,
            Some(s) => {
                let low = to_lowercase(s.as_str());
                if str_eq(low.as_str(), "dark") {
                    Theme::Dark
                } else {
                    Theme::Light
                }
            },
        }
    }

    /// The SVG text of this theme's tray icon.
    pub fn svg_data(&self) -> (r: &'static str)
        ensures
            r@ == spec_svg_data(*self),
    {
        match self {
            Theme::Light => {
                "<svg xmlns='http://www.w3.org/2000/svg' width='32' height='32' viewBox='0 0 32 32'><rect x='1' y='1' width='30' height='30' rx='7.7' fill='#1f1f1f'/><circle opacity='0.4' cx='8' cy='8' r='2.7' fill='white'/><circle opacity='0.4' cx='16' cy='8' r='2.7' fill='white'/><circle opacity='0.4' cx='24' cy='8' r='2.7' fill='white'/><circle opacity='1.0' cx='8' cy='16' r='2.7' fill='white'/><circle opacity='1.0' cx='16' cy='16' r='2.7' fill='white'/><circle opacity='1.0' cx='24' cy='16' r='2.7' fill='white'/><circle opacity='0.4' cx='8' cy='24' r='2.7' fill='white'/><circle opacity='1.0' cx='16' cy='24' r='2.7' fill='white'/><circle opacity='0.4' cx='24' cy='24' r='2.7' fill='white'/></svg>"
            },
            Theme::Dark => {
                "<svg xmlns='http://www.w3.org/2000/svg' width='32' height='32' viewBox='0 0 32 32'><rect x='1' y='1' width='30' height='30' rx='7.7' fill='#e8e8e8'/><circle opacity='0.4' cx='8' cy='8' r='2.7' fill='black'/><circle opacity='0.4' cx='16' cy='8' r='2.7' fill='black'/><circle opacity='0.4' cx='24' cy='8' r='2.7' fill='black'/><circle opacity='1.0' cx='8' cy='16' r='2.7' fill='black'/><circle opacity='1.0' cx='16' cy='16' r='2.7' fill='black'/><circle opacity='1.0' cx='24' cy='16' r='2.7' fill='black'/><circle opacity='0.4' cx='8' cy='24' r='2.7' fill='black'/><circle opacity='1.0' cx='16' cy='24' r='2.7' fill='black'/><circle opacity='0.4' cx='24' cy='24' r='2.7' fill='black'/></svg>"
            },
        }
    }
}

/// The SVG text of each theme's tray icon: a rounded tile carrying the
/// three-by-three dot mark, light on dark or dark on light.
pub open spec fn spec_svg_data(t: Theme) -> Seq<char> {
    match t {
        Theme::Light => {
            "<svg xmlns='http://www.w3.org/2000/svg' width='32' height='32' viewBox='0 0 32 32'><rect x='1' y='1' width='30' height='30' rx='7.7' fill='#1f1f1f'/><circle opacity='0.4' cx='8' cy='8' r='2.7' fill='white'/><circle opacity='0.4' cx='16' cy='8' r='2.7' fill='white'/><circle opacity='0.4' cx='24' cy='8' r='2.7' fill='white'/><circle opacity='1.0' cx='8' cy='16' r='2.7' fill='white'/><circle opacity='1.0' cx='16' cy='16' r='2.7' fill='white'/><circle opacity='1.0' cx='24' cy='16' r='2.7' fill='white'/><circle opacity='0.4' cx='8' cy='24' r='2.7' fill='white'/><circle opacity='1.0' cx='16' cy='24' r='2.7' fill='white'/><circle opacity='0.4' cx='24' cy='24' r='2.7' fill='white'/></svg>"@
        },
        Theme::Dark => {
            "<svg xmlns='http://www.w3.org/2000/svg' width='32' height='32' viewBox='0 0 32 32'><rect x='1' y='1' width='30' height='30' rx='7.7' fill='#e8e8e8'/><circle opacity='0.4' cx='8' cy='8' r='2.7' fill='black'/><circle opacity='0.4' cx='16' cy='8' r='2.7' fill='black'/><circle opacity='0.4' cx='24' cy='8' r='2.7' fill='black'/><circle opacity='1.0' cx='8' cy='16' r='2.7' fill='black'/><circle opacity='1.0' cx='16' cy='16' r='2.7' fill='black'/><circle opacity='1.0' cx='24' cy='16' r='2.7' fill='black'/><circle opacity='0.4' cx='8' cy='24' r='2.7' fill='black'/><circle opacity='1.0' cx='16' cy='24' r='2.7' fill='black'/><circle opacity='0.4' cx='24' cy='24' r='2.7' fill='black'/></svg>"@
        },
    }
}

/// Failures while rendering the icon.
#[derive(Debug, Clone, PartialEq)]
pub enum RenderError {
    /// The SVG text could not be parsed.
    TreeParsing(String),
    /// The target pixel buffer could not be created.
    PixmapCreation(String),
}

/// The one-line description of `e`.
pub open spec fn spec_render_error_message(e: RenderError) -> Seq<char> {
    match e {
        RenderError::TreeParsing(m) => "Failed to parse SVG: "@ + m@,
        RenderError::PixmapCreation(m) => "Failed to create pixmap: "@ + m@,
    }
}

impl RenderError {
    /// Renders the error as the one-line description a user sees.
    pub fn to_message(&self) -> (r: String)
        ensures
            r@ == spec_render_error_message(*self),
    {
        let mut s = String::new();
        match self {
            RenderError::TreeParsing(m) => {
                s.append("Failed to parse SVG: ");
                s.append(m.as_str());
            },
            RenderError::PixmapCreation(m) => {
                s.append("Failed to create pixmap: ");
                s.append(m.as_str());
            },
        }
        proof {
            assert(s@ =~= spec_render_error_message(*self));
        }
        s
    }
}

/// Pixel `i` of `argb` is pixel `i` of `rgba` with its channels rotated
/// so alpha comes first.
pub open spec fn spec_pixel_swapped(rgba: Seq<u8>, argb: Seq<u8>, i: int) -> bool {
    &&& argb[4 * i] == rgba[4 * i + 3]
    &&& argb[4 * i + 1] == rgba[4 * i]
    &&& argb[4 * i + 2] == rgba[4 * i + 1]
    &&& argb[4 * i + 3] == rgba[4 * i + 2]
}

/// Reorders RGBA pixel data into the ARGB order the tray protocol
/// wants: every four-byte pixel is rotated so alpha comes first; a
/// trailing fragment of fewer than four bytes is dropped.
pub fn argb_from_rgba(rgba: &Vec<u8>) -> (r: Vec<u8>)
    ensures
        r@.len() == 4 * (rgba@.len() / 4),
        forall|i: int| 0 <= i < rgba@.len() / 4 ==> #[trigger] spec_pixel_swapped(rgba@, r@, i),
{
    let pixels = rgba.len() / 4;
    let mut r: Vec<u8> = Vec::new();
    let mut i: usize = 0;
    while i < pixels
        invariant
            i <= pixels,
            pixels == rgba@.len() / 4,
            4 * pixels <= rgba@.len(),
            rgba@.len() <= usize::MAX,
            r@.len() == 4 * i,
            forall|j: int| 0 <= j < i ==> #[trigger] spec_pixel_swapped(rgba@, r@, j),
        decreases pixels - i,
    {
        let ghost r0 = r@;
        let base = 4 * i;
        r.push(rgba[base + 3]);
        r.push(rgba[base]);
        r.push(rgba[base + 1]);
        r.push(rgba[base + 2]);
        proof {
            assert(spec_pixel_swapped(rgba@, r@, i as int));
            assert forall|j: int| 0 <= j < i + 1 implies #[trigger] spec_pixel_swapped(
                rgba@,
                r@,
                j,
            ) by {
                if j < i {
                    assert(spec_pixel_swapped(rgba@, r0, j));
                    assert(r@[4 * j] == r0[4 * j]);
                    assert(r@[4 * j + 1] == r0[4 * j + 1]);
                    assert(r@[4 * j + 2] == r0[4 * j + 2]);
                    assert(r@[4 * j + 3] == r0[4 * j + 3]);
                }
            }
        }
        i = i + 1;
    }
    r
}

} // verus!
