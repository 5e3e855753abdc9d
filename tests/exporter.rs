use vdconvert::cleanup_renderer::FeatureCleanupRenderer;
use vdconvert::cleanup_renderer::Message as CleanupLine;
use vdconvert::config_renderer::FeatureConfigRenderer;
use vdconvert::config_renderer::Message as ConfigLine;
use vdconvert::fetching_view::Message as FetchMessage;
use vdconvert::gathering_view::Message as GatherMessage;
use vdconvert::icons_renderer::FeatureIconsRenderer;
use vdconvert::icons_renderer::Message as IconLine;
use vdconvert::images_renderer::FeatureImagesRenderer;
use vdconvert::images_renderer::Message as ImageLine;
use vdconvert::resources::icon_drawable_dir_name;
use vdconvert::resources::image_drawable_dir_name;
use vdconvert::resources::main_res;
use vdconvert::resources::validate_main_res;
use vdconvert::resources::MainResProblem;
use vdconvert::cleanup_view::cleanup;
use vdconvert::cleanup_view::Message as CleanupMessage;
use vdconvert::config::default_android_icons_config;
use vdconvert::config::default_common_config;
use vdconvert::config::ConfigFeatureError;
use vdconvert::config::IconFormat;
use vdconvert::config::ImageFormat;
use vdconvert::figma::collect_names_to_ids;
use vdconvert::figma::find_images_frame;
use vdconvert::figma::Canvas;
use vdconvert::figma::Document;
use vdconvert::figma::Frame;
use vdconvert::figma::FrameLookupError;
use vdconvert::icons_view::Message as IconsMessage;
use vdconvert::renderer::Indentable;
use vdconvert::renderer::Renderable;
use vdconvert::renderer::Tint;
use vdconvert::suffixes::SuffixExt;

fn frame(name: &str, id: &str, children: Option<Vec<Frame>>) -> Frame {
    Frame { id: id.to_string(), name: name.to_string(), children }
}

#[test]
fn suffixes() {
    let n = "logo".to_string();
    assert_eq!(n.with_light_suffix(), "logo_light");
    assert_eq!(n.with_dark_suffix(), "logo_dark");
    assert!(n.with_light_suffix().light());
    assert!(!n.with_light_suffix().dark());
    assert!(n.with_dark_suffix().dark());
    assert!(!"dark".to_string().dark());
}

#[test]
fn formats_and_defaults() {
    assert_eq!(ImageFormat::Png.extension(), "png");
    assert_eq!(ImageFormat::Webp.extension(), "webp");
    assert_eq!(ImageFormat::Svg.extension(), "svg");
    assert_eq!(ImageFormat::Webp.download_extension(), "png");
    assert!(ImageFormat::Svg.is_svg());
    assert!(!ImageFormat::Png.is_svg());
    assert_eq!(IconFormat::Xml.extension(), "xml");
    assert_eq!(IconFormat::Svg.extension(), "svg");
    let c = default_common_config();
    assert_eq!(c.images.figma_frame_name, "Images");
    assert_eq!(c.icons.figma_frame_name, "Icons");
    let i = default_android_icons_config();
    assert!(i.main_res.is_none());
    assert_eq!(i.format, IconFormat::Xml);
    let e = ConfigFeatureError { message: "m".to_string(), cause: "c".to_string() };
    assert_eq!(e.describe(), "m; c");
}

#[test]
fn names_to_ids_keep_the_last_id() {
    let f = frame(
        "Icons",
        "1",
        Some(vec![frame("a", "10", None), frame("b", "11", None), frame("a", "12", None)]),
    );
    let mut pairs = collect_names_to_ids(&f);
    pairs.sort();
    assert_eq!(pairs, vec![("a".to_string(), "12".to_string()), ("b".to_string(), "11".to_string())]);
    assert!(collect_names_to_ids(&frame("x", "0", None)).is_empty());
}

#[test]
fn frame_lookup() {
    let doc = Document {
        id: "d".to_string(),
        name: "doc".to_string(),
        children: vec![
            Canvas {
                id: "c1".to_string(),
                name: "Draft".to_string(),
                children: vec![frame("Icons", "f0", Some(vec![frame("old", "1", None)]))],
            },
            Canvas {
                id: "c2".to_string(),
                name: "Main".to_string(),
                children: vec![
                    frame("Icons", "f1", Some(vec![frame("new", "2", None)])),
                    frame("Empty", "f2", Some(vec![])),
                ],
            },
        ],
    };
    let any = find_images_frame(&doc, &None, &"Icons".to_string()).ok().unwrap();
    assert_eq!(any, vec![("old".to_string(), "1".to_string())]);
    let main = find_images_frame(&doc, &Some("Main".to_string()), &"Icons".to_string()).ok().unwrap();
    assert_eq!(main, vec![("new".to_string(), "2".to_string())]);
    match find_images_frame(&doc, &None, &"Empty".to_string()) {
        Err(FrameLookupError::DesiredFrameIsEmpty(n)) => assert_eq!(n, "Empty"),
        _ => panic!("expected an empty frame"),
    }
    match find_images_frame(&doc, &None, &"Images".to_string()) {
        Err(FrameLookupError::FindDesiredFrame(n)) => assert_eq!(n, "Images"),
        _ => panic!("expected a missing frame"),
    }
}

#[test]
fn messages_render_as_segments() {
    assert_eq!("Done".indent(), "        Done");
    assert_eq!("AVeryLongLabel".indent(), "AVeryLongLabel");
    let m = IconsMessage::IconExported("logo".to_string(), "drawable".to_string());
    let segs = m.render();
    assert_eq!(segs.len(), 2);
    assert_eq!(segs[0].text, "    Exported");
    assert_eq!(segs[0].tint, Some(Tint::Green));
    assert_eq!(segs[1].text, " icon logo (drawable)");
    assert_eq!(segs[1].tint, None);
    let done = IconsMessage::Done { message: None }.render();
    assert_eq!(done.len(), 1);
}

#[test]
fn cleanup_messages() {
    assert!(matches!(cleanup(Ok(())), CleanupMessage::Done));
    match cleanup(Err("busy".to_string())) {
        CleanupMessage::Error(d) => assert_eq!(d, "Can't delete temporary `.fxn` directory: busy"),
        _ => panic!("expected an error"),
    }
}

#[test]
fn renderer_lines() {
    let r = FeatureIconsRenderer::new();
    let cached = r.render(&IconLine::DomFetched { url: "https://x".to_string(), from_cache: true });
    assert_eq!(cached[0].text, "     Fetched");
    assert_eq!(cached[1].text, " figma file nodes from cache\n");
    let fresh = r.render(&IconLine::DomFetched { url: "https://x".to_string(), from_cache: false });
    assert_eq!(fresh[1].text, " figma file nodes from https://x\n");
    let done = r.render(&IconLine::Done { message: None });
    assert_eq!(done[0].text, "        Done");
    assert_eq!(done[1].text, "\n");
    let i = FeatureImagesRenderer::new();
    let line = i.render(&ImageLine::ConvertingToWebp("logo".to_string(), "hdpi".to_string()));
    assert_eq!(line[0].text, "  Converting");
    assert_eq!(line[0].tint, Some(Tint::Cyan));
    assert_eq!(line[1].text, " to WEBP image logo (hdpi)...\n");
}

#[test]
fn resource_directories() {
    assert_eq!(icon_drawable_dir_name(true), "drawable-night");
    assert_eq!(icon_drawable_dir_name(false), "drawable");
    assert_eq!(image_drawable_dir_name(ImageFormat::Svg, true, "hdpi"), "drawable-night");
    assert_eq!(image_drawable_dir_name(ImageFormat::Png, false, "hdpi"), "drawable-hdpi");
    assert_eq!(image_drawable_dir_name(ImageFormat::Webp, true, "xhdpi"), "drawable-night-xhdpi");
    assert_eq!(validate_main_res(false, false, false), Err(MainResProblem::Common));
    assert_eq!(validate_main_res(false, true, false), Err(MainResProblem::Icons));
    assert_eq!(validate_main_res(false, false, true), Err(MainResProblem::Images));
    assert_eq!(validate_main_res(true, false, false), Ok(()));
    assert_eq!(validate_main_res(false, true, true), Ok(()));
    assert_eq!(main_res(&None, &Some("./res".to_string())), Some("./res".to_string()));
    assert_eq!(main_res(&Some("./a".to_string()), &Some("./res".to_string())), Some("./a".to_string()));
    assert_eq!(main_res(&None, &None), None);
}

#[test]
fn fetching_and_gathering_messages() {
    let cached = FetchMessage::DomFetched { url: "u".to_string(), from_cache: true }.render();
    assert_eq!(cached.len(), 4);
    assert_eq!(cached[2].text, "from cache");
    assert_eq!(cached[2].tint, Some(Tint::White));
    let reading = FetchMessage::ReadingConfig { path: "c.yaml".to_string() }.render();
    assert_eq!(reading[0].text, "     Loading");
    assert_eq!(reading[1].text, " config from file c.yaml");
    let missing = GatherMessage::NotFoundButSuggestions(
        "logo".to_string(),
        "Icons".to_string(),
        vec!["logo1".to_string(), "logos".to_string()],
    )
    .render();
    assert_eq!(missing[0].text, "     Missing");
    assert_eq!(
        missing[1].text,
        " resource with name `logo` in frame `Icons`,\n             but there are resources with similar names:\n             `logo1`\n             `logos`\n"
    );
}

#[test]
fn result_lines() {
    let c = FeatureCleanupRenderer::new();
    let line = c.render_internal(&CleanupLine::Done { message: "removed".to_string() });
    assert_eq!(line[0].text, "        Done");
    assert_eq!(line[1].text, " removed\n");
    let k = FeatureConfigRenderer::new();
    let line = k.render_internal(&ConfigLine::Error { description: "denied".to_string() });
    assert_eq!(line[0].text, "       Error");
    assert_eq!(line[0].tint, Some(Tint::Red));
    assert_eq!(line[1].text, " denied\n");
}
