//! The look of the window: its colours, the fades painted over the hero picture and
//! around the card, and the fonts it asks for.
use crate::texture::Rgba;
use vstd::prelude::*;

verus! {

/// The number of strips in the fade from the hero picture into the black card.
pub const HERO_FADE_STRIPS: u8 = 16;

/// The number of rings in the glow around the card.
pub const GLOW_RINGS: u8 = 6;

/// The name under which the gothic display font is registered.
pub const GOTHIC_FAMILY: &'static str = "gothic";

/// An opaque colour.
pub open spec fn opaque(r: u8, g: u8, b: u8) -> Rgba {
    Rgba { r, g, b, a: 255 }
}

/// The red of borders, labels and the button.
pub fn accent_red() -> (c: Rgba)
    ensures
        c == opaque(220, 38, 38),
{
    Rgba { r: 220, g: 38, b: 38, a: 255 }
}

/// The border of a text field: red while it has the focus, dim grey otherwise.
pub fn input_border_color(focused: bool) -> (c: Rgba)
    ensures
        c == (if focused {
            opaque(220, 38, 38)
        } else {
            opaque(55, 55, 55)
        }),
{
    if focused {
        accent_red()
    } else {
        Rgba { r: 55, g: 55, b: 55, a: 255 }
    }
}

/// How opaque the black of strip `i` of the hero fade is: the fade grows with the
/// square of the strip's place, `(i / 16)^2 * 200`, rounded down.
pub open spec fn fade_alpha(i: int) -> int {
    (i * i * 200) / 256
}

/// The black's opacity for strip `i` of the hero fade.
pub fn hero_fade_alpha(i: u8) -> (a: u8)
    requires
        i < HERO_FADE_STRIPS,
    ensures
        a == fade_alpha(i as int),
{
    let ii = i as u32;
    assert(ii * ii * 200 <= 45000) by (nonlinear_arith)
        requires
            ii < 16,
    ;
    let scaled = ii * ii * 200;
    (scaled / 256) as u8
}

/// How opaque ring `ring` of the card's glow is: sixty divided by the ring's number,
/// but never under four.
pub open spec fn glow_alpha(ring: int) -> int {
    if 60int / ring < 4 {
        4
    } else {
        60int / ring
    }
}

/// The opacity of ring `ring` of the glow around the card; rings are numbered from one.
pub fn glow_ring_alpha(ring: u8) -> (a: u8)
    requires
        1 <= ring,
    ensures
        a == glow_alpha(ring as int),
{
    let q = 60 / ring;
    if q < 4 {
        4
    } else {
        q
    }
}

/// The hero fade darkens from top to bottom: a later strip is never lighter, and no
/// strip reaches the alpha of 200.
pub proof fn law_fade_darkens(i: int, j: int)
    requires
        0 <= i <= j < HERO_FADE_STRIPS,
    ensures
        fade_alpha(i) <= fade_alpha(j) < 200,
{
    assert(i * i <= j * j) by (nonlinear_arith)
        requires
            0 <= i <= j,
    ;
    assert(j * j <= 225) by (nonlinear_arith)
        requires
            0 <= j < 16,
    ;
}

/// The glow fades outwards: an outer ring is never more opaque than an inner one, and
/// every ring keeps an alpha of at least four.
pub proof fn law_glow_fades_outwards(inner: int, outer: int)
    requires
        1 <= inner <= outer,
    ensures
        glow_alpha(outer) <= glow_alpha(inner),
        glow_alpha(outer) >= 4,
{
    assert(60int / outer <= 60int / inner) by (nonlinear_arith)
        requires
            1 <= inner <= outer,
    ;
}

/// The colours that the window's theme sets.
#[derive(Clone, Copy, Debug, PartialEq, Eq, Structural)]
pub struct Theme {
    pub text: Rgba,
    pub noninteractive_bg: Rgba,
    pub inactive_bg: Rgba,
    pub active_bg: Rgba,
    pub hovered_bg: Rgba,
    pub extreme_bg: Rgba,
    pub window_fill: Rgba,
    pub faint_bg: Rgba,
    pub selection_bg: Rgba,
}

/// The dark theme of the window: grey text on near-black, faintly red when active or
/// hovered, and a translucent red selection.
pub fn stake_theme() -> (t: Theme)
    ensures
        t == (Theme {
            text: opaque(160, 160, 160),
            noninteractive_bg: opaque(10, 10, 10),
            inactive_bg: opaque(20, 20, 20),
            active_bg: opaque(28, 10, 10),
            hovered_bg: opaque(35, 14, 14),
            extreme_bg: opaque(18, 18, 18),
            window_fill: opaque(0, 0, 0),
            faint_bg: opaque(12, 12, 12),
            selection_bg: Rgba { r: 220, g: 38, b: 38, a: 80 },
        }),
{
    Theme {
        text: Rgba { r: 160, g: 160, b: 160, a: 255 },
        noninteractive_bg: Rgba { r: 10, g: 10, b: 10, a: 255 },
        inactive_bg: Rgba { r: 20, g: 20, b: 20, a: 255 },
        active_bg: Rgba { r: 28, g: 10, b: 10, a: 255 },
        hovered_bg: Rgba { r: 35, g: 14, b: 14, a: 255 },
        extreme_bg: Rgba { r: 18, g: 18, b: 18, a: 255 },
        window_fill: Rgba { r: 0, g: 0, b: 0, a: 255 },
        faint_bg: Rgba { r: 12, g: 12, b: 12, a: 255 },
        selection_bg: Rgba { r: 220, g: 38, b: 38, a: 80 },
    }
}

/// Where the gothic font is looked for, in order: the installed locations, then the
/// development tree.
pub fn gothic_font_candidates() -> (paths: Vec<&'static str>)
    ensures
        paths@.len() == 3,
        paths@[0]@ == "/usr/share/fonts/truetype/stake/Creepster-Regular.ttf"@,
        paths@[1]@ == "/usr/share/fonts/stake/Creepster-Regular.ttf"@,
        paths@[2]@ == "assets/Creepster-Regular.ttf"@,
{
    let mut paths: Vec<&'static str> = Vec::new();
    paths.push("/usr/share/fonts/truetype/stake/Creepster-Regular.ttf");
    paths.push("/usr/share/fonts/stake/Creepster-Regular.ttf");
    paths.push("assets/Creepster-Regular.ttf");
    paths
}

/// The fonts of the gothic family: the gothic font itself when one of the candidates
/// was read, else egui's default proportional fonts (`Ubuntu-Light`, then
/// `NotoEmoji-Regular`, then `emoji-icon-font`) in its place.
pub fn gothic_family_fonts(loaded: bool) -> (fonts: Vec<String>)
    ensures
        loaded ==> fonts@.len() == 1 && fonts@[0]@ == GOTHIC_FAMILY@,
        !loaded ==> fonts@.len() == 3 && fonts@[0]@ == "Ubuntu-Light"@ && fonts@[1]@
            == "NotoEmoji-Regular"@ && fonts@[2]@ == "emoji-icon-font"@,
{
    let mut fonts: Vec<String> = Vec::new();
    if loaded {
        fonts.push(String::from_str(GOTHIC_FAMILY));
    } else {
        fonts.push(String::from_str("Ubuntu-Light"));
        fonts.push(String::from_str("NotoEmoji-Regular"));
        fonts.push(String::from_str("emoji-icon-font"));
    }
    fonts
}

} // verus!
