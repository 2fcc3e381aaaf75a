use stake::form::FormState;
use stake::pake::{decide_request, pake_arguments, pake_outcome, prepare_pake, PakeError, PakeJob, PakeRun, PAKE_PROGRAM};
use stake::style::{
    accent_red, glow_ring_alpha, gothic_family_fonts, gothic_font_candidates, hero_fade_alpha,
    input_border_color, stake_theme, GLOW_RINGS, GOTHIC_FAMILY, HERO_FADE_STRIPS,
};
use stake::text::{is_white_space, trim_whitespace};
use stake::texture::{decode_texture, texture_from_rgba, Rgba};

fn job(url: &str, name: &str) -> PakeJob {
    PakeJob { url: url.to_string(), name: name.to_string() }
}

#[test]
fn white_space_matches_std_for_every_char() {
    for u in 0..=0x10FFFFu32 {
        if let Some(c) = char::from_u32(u) {
            assert_eq!(is_white_space(c), c.is_whitespace(), "code point {:#x}", u);
        }
    }
}

#[test]
fn trim_matches_std_trim() {
    let samples = [
        "",
        "   ",
        "abc",
        "  abc  ",
        "\t\n a b \r\n",
        "\u{3000}名前\u{2003}",
        "\u{85}x\u{a0}",
        "x\u{200b}",
        " \u{feff}y ",
        "é  ",
    ];
    for s in samples {
        assert_eq!(trim_whitespace(s), s.trim(), "sample {:?}", s);
    }
}

#[test]
fn trim_twice_is_trim_once() {
    let s = "\u{2028}  hello world \t";
    let once = trim_whitespace(s);
    assert_eq!(trim_whitespace(once), once);
    assert_eq!(once, "hello world");
}

#[test]
fn blank_title_is_refused() {
    let r = prepare_pake("https://example.com", "   ");
    assert!(matches!(r, Err(PakeError::TitleRequired)));
    assert_eq!(r.unwrap_err().message(), "Title is required.");
}

#[test]
fn empty_title_is_checked_before_the_url() {
    let r = prepare_pake("not a url", "");
    assert!(matches!(r, Err(PakeError::TitleRequired)));
}

#[test]
fn relative_url_is_refused() {
    let r = prepare_pake("example.com", "Example");
    assert!(matches!(r, Err(PakeError::InvalidUrl)));
    assert_eq!(
        r.unwrap_err().message(),
        "Please enter a valid URL including protocol."
    );
}

#[test]
fn accepted_request_is_trimmed() {
    let job = prepare_pake("  https://example.com/app \n", "\t My App ").unwrap();
    assert_eq!(job.url, "https://example.com/app");
    assert_eq!(job.name, "My App");
}

#[test]
fn whitespace_around_fields_changes_nothing() {
    let a = prepare_pake(" https://a.org ", " A ").unwrap();
    let b = prepare_pake("https://a.org", "A").unwrap();
    assert_eq!(a.url, b.url);
    assert_eq!(a.name, b.name);
}

#[test]
fn arguments_name_the_url_then_the_app() {
    let args = pake_arguments(&job("https://example.com", "Example"));
    assert_eq!(args, vec!["https://example.com", "--name", "Example"]);
    assert_eq!(PAKE_PROGRAM, "pake");
}

#[test]
fn missing_program_is_reported() {
    let r = pake_outcome(&job("https://a.org", "A"), PakeRun::NotFound);
    assert!(matches!(r, Err(PakeError::PakeNotFound)));
    assert_eq!(r.unwrap_err().message(), "Could not find `pake` binary in PATH.");
}

#[test]
fn launch_failure_is_reported() {
    let r = pake_outcome(&job("https://a.org", "A"), PakeRun::LaunchFailed);
    assert!(matches!(r, Err(PakeError::LaunchFailed)));
    assert_eq!(r.unwrap_err().message(), "Failed to execute pake.");
}

#[test]
fn success_names_app_and_site() {
    let r = pake_outcome(
        &job("https://example.com", "Example"),
        PakeRun::Finished { success: true, stderr: b"ignored".to_vec() },
    );
    assert_eq!(r.unwrap(), "✓ Created app `Example` for https://example.com");
}

#[test]
fn failure_reports_error_stream() {
    let r = pake_outcome(
        &job("https://example.com", "Example"),
        PakeRun::Finished { success: false, stderr: b"boom\n".to_vec() },
    );
    assert_eq!(r.unwrap_err().message(), "pake failed: boom\n");
}

#[test]
fn failure_with_invalid_utf8_is_decoded_leniently() {
    let r = pake_outcome(
        &job("https://example.com", "Example"),
        PakeRun::Finished { success: false, stderr: vec![b'o', 0xff, b'k'] },
    );
    match r {
        Err(PakeError::PakeFailed(detail)) => assert_eq!(detail, "o\u{fffd}k"),
        _ => panic!("expected a failed run"),
    }
}

#[test]
fn new_form_is_empty() {
    let f = FormState::new();
    assert_eq!(f.website, "");
    assert_eq!(f.title, "");
    assert!(f.last_status.is_none());
    assert!(f.last_error.is_none());
}

#[test]
fn recording_replaces_the_other_outcome() {
    let mut f = FormState::new();
    f.website = "https://a.org".to_string();
    f.title = "A".to_string();
    f.record(Err(PakeError::InvalidUrl));
    assert_eq!(f.last_error.as_deref(), Some("Please enter a valid URL including protocol."));
    assert!(f.last_status.is_none());
    f.record(Ok("done".to_string()));
    assert_eq!(f.last_status.as_deref(), Some("done"));
    assert!(f.last_error.is_none());
    f.record(Err(PakeError::PakeFailed("bad".to_string())));
    assert_eq!(f.last_error.as_deref(), Some("pake failed: bad"));
    assert!(f.last_status.is_none());
    assert_eq!(f.website, "https://a.org");
    assert_eq!(f.title, "A");
}

#[test]
fn form_request_uses_its_fields() {
    let mut f = FormState::new();
    f.website = " https://a.org".to_string();
    f.title = "A ".to_string();
    let j = f.request().unwrap();
    assert_eq!(j.url, "https://a.org");
    assert_eq!(j.name, "A");
    f.title = String::new();
    assert!(matches!(f.request(), Err(PakeError::TitleRequired)));
}

fn png_bytes(width: u32, height: u32, raw: Vec<u8>) -> Vec<u8> {
    let img = image::RgbaImage::from_raw(width, height, raw).unwrap();
    let mut out = std::io::Cursor::new(Vec::new());
    image::DynamicImage::ImageRgba8(img)
        .write_to(&mut out, image::ImageFormat::Png)
        .unwrap();
    out.into_inner()
}

#[test]
fn png_decodes_to_its_pixels() {
    let raw = vec![255, 0, 0, 255, 0, 255, 0, 128, 0, 0, 255, 0, 10, 20, 30, 40];
    let t = decode_texture(&png_bytes(2, 2, raw)).unwrap();
    assert_eq!((t.width, t.height), (2, 2));
    assert_eq!(
        t.pixels,
        vec![
            Rgba { r: 255, g: 0, b: 0, a: 255 },
            Rgba { r: 0, g: 255, b: 0, a: 128 },
            Rgba { r: 0, g: 0, b: 255, a: 0 },
            Rgba { r: 10, g: 20, b: 30, a: 40 },
        ]
    );
}

#[test]
fn garbage_does_not_decode() {
    assert!(decode_texture(b"definitely not a picture").is_none());
    assert!(decode_texture(&[]).is_none());
}

#[test]
fn grouping_ignores_bytes_past_the_picture() {
    let t = texture_from_rgba(1, 2, &vec![1, 2, 3, 4, 5, 6, 7, 8, 9, 9]);
    assert_eq!(t.width, 1);
    assert_eq!(t.height, 2);
    assert_eq!(
        t.pixels,
        vec![Rgba { r: 1, g: 2, b: 3, a: 4 }, Rgba { r: 5, g: 6, b: 7, a: 8 }]
    );
    let empty = texture_from_rgba(0, 5, &vec![]);
    assert!(empty.pixels.is_empty());
}

#[test]
fn fade_alphas_follow_the_quadratic() {
    let expected = [0, 0, 3, 7, 12, 19, 28, 38, 50, 63, 78, 94, 112, 132, 153, 175];
    for i in 0..HERO_FADE_STRIPS {
        assert_eq!(hero_fade_alpha(i), expected[i as usize]);
        let t = i as f32 / HERO_FADE_STRIPS as f32;
        assert_eq!(hero_fade_alpha(i), (t * t * 200.0) as u8);
    }
}

#[test]
fn glow_alphas_fade_outwards() {
    let alphas: Vec<u8> = (1..=GLOW_RINGS).map(glow_ring_alpha).collect();
    assert_eq!(alphas, vec![60, 30, 20, 15, 12, 10]);
    assert_eq!(glow_ring_alpha(20), 4);
    assert_eq!(glow_ring_alpha(255), 4);
}

#[test]
fn border_is_red_only_with_focus() {
    assert_eq!(input_border_color(true), accent_red());
    assert_eq!(accent_red(), Rgba { r: 220, g: 38, b: 38, a: 255 });
    assert_eq!(input_border_color(false), Rgba { r: 55, g: 55, b: 55, a: 255 });
}

#[test]
fn theme_colours() {
    let t = stake_theme();
    assert_eq!(t.text, Rgba { r: 160, g: 160, b: 160, a: 255 });
    assert_eq!(t.window_fill, Rgba { r: 0, g: 0, b: 0, a: 255 });
    assert_eq!(t.hovered_bg, Rgba { r: 35, g: 14, b: 14, a: 255 });
    assert_eq!(t.selection_bg, Rgba { r: 220, g: 38, b: 38, a: 80 });
}

#[test]
fn font_plan() {
    let c = gothic_font_candidates();
    assert_eq!(c.len(), 3);
    assert_eq!(c[2], "assets/Creepster-Regular.ttf");
    assert_eq!(gothic_family_fonts(true), vec![GOTHIC_FAMILY.to_string()]);
    assert_eq!(
        gothic_family_fonts(false),
        vec![
            "Ubuntu-Light".to_string(),
            "NotoEmoji-Regular".to_string(),
            "emoji-icon-font".to_string()
        ]
    );
}

#[test]
fn decision_follows_the_parse_result() {
    assert!(matches!(decide_request("example.com", "Example", false), Err(PakeError::InvalidUrl)));
    assert!(matches!(decide_request("example.com", "", true), Err(PakeError::TitleRequired)));
    assert!(matches!(decide_request("example.com", "", false), Err(PakeError::TitleRequired)));
    let j = decide_request("https://example.com", "Example", true).unwrap();
    assert_eq!(j.url, "https://example.com");
    assert_eq!(j.name, "Example");
}

fn encoded(width: u32, height: u32, raw: Vec<u8>, format: image::ImageFormat) -> Vec<u8> {
    let img = image::RgbaImage::from_raw(width, height, raw).unwrap();
    let mut out = std::io::Cursor::new(Vec::new());
    image::DynamicImage::ImageRgba8(img).write_to(&mut out, format).unwrap();
    out.into_inner()
}

#[test]
fn other_formats_decode_too() {
    let raw = vec![1, 2, 3, 255, 4, 5, 6, 255];
    let t = decode_texture(&encoded(2, 1, raw, image::ImageFormat::Bmp)).unwrap();
    assert_eq!((t.width, t.height), (2, 1));
    assert_eq!(
        t.pixels,
        vec![Rgba { r: 1, g: 2, b: 3, a: 255 }, Rgba { r: 4, g: 5, b: 6, a: 255 }]
    );
}

#[test]
fn malformed_or_unknown_bytes_do_not_decode() {
    let mut bmp = b"BM".to_vec();
    bmp.extend_from_slice(&[0u8; 60]);
    assert!(decode_texture(&bmp).is_none());
    assert!(decode_texture(b"xyz").is_none());
}
