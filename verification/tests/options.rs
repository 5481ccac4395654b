//! Unit tests for the builder and its option rendering, the settings
//! map, the callback registry and the image-engine flow.

use wkhtmltopdf::image_init;
use wkhtmltopdf::CallbackRegistry;
use wkhtmltopdf::EngineCore;
use wkhtmltopdf::EngineState;
use wkhtmltopdf::Error;
use wkhtmltopdf::ImageApplication;
use wkhtmltopdf::ImageFormat;
use wkhtmltopdf::ImageGlobalSettings;
use wkhtmltopdf::SettingsMap;

fn lookup<'a>(m: &'a SettingsMap, name: &str) -> &'a str {
    m.get(name).expect("option must be present").as_str()
}

#[test]
fn builder_accumulates_options() {
    let mut engine = EngineCore::new();
    let app = ImageApplication::new(&mut engine, true).expect("first initialization");
    let mut builder = app.builder();
    builder
        .format(ImageFormat::Png)
        .screen_width(1280)
        .image_quality(94)
        .transparent(true)
        .global_setting("out".to_owned(), "-".to_owned());

    let m = builder.settings();
    assert_eq!(lookup(m, "fmt"), "png");
    assert_eq!(lookup(m, "screenWidth"), "1280");
    assert_eq!(lookup(m, "imageQuality"), "94");
    assert_eq!(lookup(m, "transparent"), "true");
    assert_eq!(lookup(m, "out"), "-");
    assert!(m.get("absent").is_none());
}

#[test]
fn builder_later_assignment_wins() {
    let mut engine = EngineCore::new();
    let app = ImageApplication::new(&mut engine, true).expect("first initialization");
    let mut builder = app.builder();
    builder.format(ImageFormat::Jpg).format(ImageFormat::Svg).transparent(false);
    assert_eq!(lookup(builder.settings(), "fmt"), "svg");
    assert_eq!(lookup(builder.settings(), "transparent"), "false");
}

#[test]
fn image_format_values() {
    assert_eq!(ImageFormat::Jpg.value(), "jpg");
    assert_eq!(ImageFormat::Png.value(), "png");
    assert_eq!(ImageFormat::Bmp.value(), "bmp");
    assert_eq!(ImageFormat::Svg.value(), "svg");
}

#[test]
fn decimal_rendering_edges() {
    assert_eq!(wkhtmltopdf::text::u32_decimal(0), "0");
    assert_eq!(wkhtmltopdf::text::u32_decimal(7), "7");
    assert_eq!(wkhtmltopdf::text::u32_decimal(100), "100");
    assert_eq!(wkhtmltopdf::text::u32_decimal(u32::MAX), "4294967295");
}

#[test]
fn null_scan() {
    assert!(!wkhtmltopdf::text::has_interior_null("plain"));
    assert!(!wkhtmltopdf::text::has_interior_null(""));
    assert!(wkhtmltopdf::text::has_interior_null("a\0b"));
    assert!(wkhtmltopdf::text::has_interior_null("\0"));
}

#[test]
fn settings_map_overrides() {
    let mut m = SettingsMap::new();
    m.insert("a".to_owned(), "1".to_owned());
    m.insert("b".to_owned(), "2".to_owned());
    m.insert("a".to_owned(), "3".to_owned());
    assert_eq!(lookup(&m, "a"), "3");
    assert_eq!(lookup(&m, "b"), "2");
    assert_eq!(m.entries().len(), 3);
}

#[test]
fn registry_ignores_unknown_jobs() {
    let mut registry = CallbackRegistry::new();
    assert!(!registry.record_error(5, "stray".to_owned()));
    assert!(registry.finish(5, 1).is_none());
    registry.remove(5);
    assert!(!registry.contains(5));

    registry.register(5);
    assert!(registry.contains(5));
    // Deregistration is idempotent.
    registry.remove(5);
    registry.remove(5);
    assert!(!registry.contains(5));
}

#[test]
fn registry_success_outcome() {
    let mut registry = CallbackRegistry::new();
    registry.register(9);
    assert!(registry.record_error(9, "only a warning-grade message".to_owned()));
    // Status 1 means success even if error messages accumulated.
    assert!(matches!(registry.finish(9, 1), Some(Ok(()))));
    assert!(!registry.contains(9));
}

#[test]
fn join_message_shapes() {
    assert_eq!(wkhtmltopdf::registry::join_messages(&Vec::new()), "");
    assert_eq!(wkhtmltopdf::registry::join_messages(&vec!["one".to_owned()]), "one");
    assert_eq!(
        wkhtmltopdf::registry::join_messages(&vec![
            "one".to_owned(),
            "two".to_owned(),
            "three".to_owned(),
        ]),
        "one, two, three"
    );
}

#[test]
fn image_engine_flow() {
    let mut engine = EngineCore::new();
    let mut registry = CallbackRegistry::new();
    let _guard = image_init(&mut engine, true).expect("first initialization");

    ImageGlobalSettings::acquire(&mut engine).expect("acquire");
    let mut global = ImageGlobalSettings::new(12);
    global.set("fmt", "png", true).expect("accepted setting");
    assert!(global.needs_release());

    let converter = global.create_converter_with_html(22, "basic <b>from</b> html");
    assert!(!converter.global_needs_release());
    converter.setup_callbacks(&mut registry);
    let received = registry.finish(22, 1);
    let mut output = converter
        .convert(&mut registry, &mut engine, true, received, vec![0x89, 0x50, 0x4e, 0x47])
        .expect("output");
    assert!(!registry.contains(22));
    let bytes = output.read(usize::MAX);
    assert_eq!(bytes, vec![0x89, 0x50, 0x4e, 0x47]);
    output.release(&mut engine);
    assert_eq!(engine.state(), EngineState::Ready);

    let second = image_init(&mut engine, true);
    assert!(matches!(second, Err(Error::IllegalInit)));
}

#[test]
fn image_converter_without_payload() {
    let mut engine = EngineCore::new();
    let mut registry = CallbackRegistry::new();
    let _guard = image_init(&mut engine, true).expect("first initialization");
    ImageGlobalSettings::acquire(&mut engine).expect("acquire");
    let mut global = ImageGlobalSettings::new(12);
    global
        .set("in", "https://example.invalid/", true)
        .expect("accepted setting");
    let converter = global.create_converter(22);
    converter.setup_callbacks(&mut registry);
    // The native engine reports failure with a single error.
    assert!(registry.record_error(22, "could not load".to_owned()));
    let received = registry.finish(22, 0);
    let result = converter.convert(&mut registry, &mut engine, false, received, Vec::new());
    match result {
        Err(Error::ConversionFailed(msg)) => assert_eq!(msg, "could not load"),
        _ => panic!("failure must carry the single message unjoined"),
    }
    assert_eq!(engine.state(), EngineState::Ready);
}
