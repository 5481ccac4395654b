//! End-to-end scenarios over the engine lifecycle, the callback bridge
//! and the ownership-transfer protocol, with the native engine's part
//! played by plain simulated outcomes.

use wkhtmltopdf::pdf_init;
use wkhtmltopdf::CallbackRegistry;
use wkhtmltopdf::EngineCore;
use wkhtmltopdf::EngineState;
use wkhtmltopdf::Error;
use wkhtmltopdf::PageSource;
use wkhtmltopdf::PdfGlobalSettings;
use wkhtmltopdf::PdfObjectSettings;

#[test]
fn happy_path() {
    let mut engine = EngineCore::new();
    let mut registry = CallbackRegistry::new();

    assert!(engine.can_initialize());
    let _guard = pdf_init(&mut engine, true).expect("first initialization must succeed");
    assert_eq!(engine.state(), EngineState::Ready);

    PdfGlobalSettings::acquire(&mut engine).expect("ready engine must be acquirable");
    assert_eq!(engine.state(), EngineState::Busy);
    let mut global = PdfGlobalSettings::new(11);
    global
        .set("orientation", "Landscape", true)
        .expect("accepted setting must succeed");

    let mut converter = global.create_converter(21);
    assert!(!converter.global_needs_release());
    let object = PdfObjectSettings::new(31);
    converter.add_html_object(object, "<b>hi</b>");
    match converter.object_source(0) {
        PageSource::Inline(html) => assert_eq!(html, "<b>hi</b>"),
        _ => panic!("inline payload must win"),
    }

    converter.setup_callbacks(&mut registry);
    assert!(registry.contains(21));
    // The native engine finishes with status 1 during the call.
    let received = registry.finish(21, 1);
    assert!(matches!(received, Some(Ok(()))));
    let mut output = converter
        .convert(&mut registry, &mut engine, true, received, vec![0x25, 0x50, 0x44, 0x46])
        .expect("successful call must yield output");
    assert!(!registry.contains(21));
    assert_eq!(engine.state(), EngineState::Busy);

    assert_eq!(output.remaining(), 4);
    let bytes = output.read(100);
    assert!(!bytes.is_empty());
    assert_eq!(bytes, vec![0x25, 0x50, 0x44, 0x46]);
    assert_eq!(output.remaining(), 0);

    output.release(&mut engine);
    assert_eq!(engine.state(), EngineState::Ready);
}

#[test]
fn reinit_rejection() {
    let mut engine = EngineCore::new();
    let _guard = pdf_init(&mut engine, true).expect("first initialization must succeed");
    assert!(!engine.can_initialize());
    let second = pdf_init(&mut engine, false);
    assert!(matches!(second, Err(Error::IllegalInit)));
}

#[test]
fn reinit_rejected_regardless_of_interleaving() {
    let mut engine = EngineCore::new();
    let _guard = pdf_init(&mut engine, true).expect("first initialization must succeed");
    PdfGlobalSettings::acquire(&mut engine).expect("acquire");
    engine.release_output();
    engine.deinitialize();
    let again = pdf_init(&mut engine, true);
    assert!(matches!(again, Err(Error::IllegalInit)));
}

#[test]
fn reinit_rejected_even_after_failed_native_init() {
    let mut engine = EngineCore::new();
    // The native initialization call failed; a guard is still handed out.
    let first = pdf_init(&mut engine, false);
    assert!(first.is_ok());
    // The engine never became ready, so use fails downstream...
    assert_eq!(engine.state(), EngineState::New);
    let acquired = PdfGlobalSettings::acquire(&mut engine);
    assert!(matches!(acquired, Err(Error::NotInitialized)));
    // ...and a second initialization attempt is still rejected.
    let second = pdf_init(&mut engine, true);
    assert!(matches!(second, Err(Error::IllegalInit)));
}

#[test]
fn busy_rejection() {
    let mut engine = EngineCore::new();
    let _guard = pdf_init(&mut engine, true).expect("first initialization must succeed");
    PdfGlobalSettings::acquire(&mut engine).expect("first job must start");
    let second = PdfGlobalSettings::acquire(&mut engine);
    assert!(matches!(second, Err(Error::Blocked)));
    // Releasing the first job (here: its failed-conversion cleanup) makes
    // the engine ready again and the next job can proceed.
    engine.release_output();
    assert_eq!(engine.state(), EngineState::Ready);
    PdfGlobalSettings::acquire(&mut engine).expect("released engine must be acquirable");
    assert_eq!(engine.state(), EngineState::Busy);
}

#[test]
fn thread_mismatch_on_foreign_thread() {
    let mut engine = EngineCore::new();
    engine
        .initialize(7, true)
        .expect("first initialization must succeed");
    let foreign = engine.acquire_global(9);
    match foreign {
        Err(Error::ThreadMismatch(expected, actual)) => {
            assert_eq!(expected, 7);
            assert_eq!(actual, 9);
        },
        _ => panic!("foreign thread must be rejected"),
    }
    // The rejected attempt changed nothing: the engine is still ready
    // for its own thread.
    assert_eq!(engine.state(), EngineState::Ready);
    engine
        .acquire_global(7)
        .expect("initializing thread must be accepted");
}

#[test]
fn use_before_init_and_after_teardown() {
    let mut engine = EngineCore::new();
    let before = PdfGlobalSettings::acquire(&mut engine);
    assert!(matches!(before, Err(Error::NotInitialized)));

    let guard = pdf_init(&mut engine, true).expect("first initialization must succeed");
    guard.teardown(&mut engine);
    assert_eq!(engine.state(), EngineState::Dropped);
    let after = PdfGlobalSettings::acquire(&mut engine);
    assert!(matches!(after, Err(Error::NotInitialized)));
    // Teardown is permanent: releasing a job cannot resurrect the engine.
    engine.release_output();
    assert_eq!(engine.state(), EngineState::Dropped);
}

#[test]
fn failed_conversion() {
    let mut engine = EngineCore::new();
    let mut registry = CallbackRegistry::new();
    let _guard = pdf_init(&mut engine, true).expect("first initialization must succeed");
    PdfGlobalSettings::acquire(&mut engine).expect("acquire");
    let global = PdfGlobalSettings::new(11);
    let converter = global.create_converter(21);

    converter.setup_callbacks(&mut registry);
    // The stubbed native engine fires the error callback twice, then
    // finishes with a failure status.
    assert!(registry.record_error(21, "bad css".to_owned()));
    assert!(registry.record_error(21, "bad font".to_owned()));
    let received = registry.finish(21, 0);
    let result = converter.convert(&mut registry, &mut engine, false, received, Vec::new());
    match result {
        Err(Error::ConversionFailed(msg)) => assert_eq!(msg, "bad css, bad font"),
        _ => panic!("failed call must surface the joined conversion failure"),
    }
    // The registry entry is gone and the failed job's cleanup released
    // the engine for the next job.
    assert!(!registry.contains(21));
    assert_eq!(engine.state(), EngineState::Ready);
}

#[test]
fn ownership_transfer_flags() {
    let global = PdfGlobalSettings::new(11);
    assert!(global.needs_release());
    let converter = global.create_converter(21);
    assert!(!converter.global_needs_release());

    let object = PdfObjectSettings::new(31);
    assert!(object.needs_release());
}

#[test]
fn page_source_precedence_and_empty_payload_fallback() {
    let mut engine = EngineCore::new();
    let _guard = pdf_init(&mut engine, true).expect("init");
    PdfGlobalSettings::acquire(&mut engine).expect("acquire");
    let global = PdfGlobalSettings::new(11);
    let mut converter = global.create_converter(21);

    // A page object renders the `page` setting.
    let object = PdfObjectSettings::new(31);
    converter.add_page_object(object, "https://example.invalid/a");
    match converter.object_source(0) {
        PageSource::PageSetting(page) => assert_eq!(page, "https://example.invalid/a"),
        _ => panic!("page object must render its page setting"),
    }

    // A non-empty inline payload wins over a `page` setting.
    let mut object = PdfObjectSettings::new(32);
    object
        .set("page", "https://example.invalid/b", true)
        .expect("accepted setting");
    converter.add_html_object(object, "<p>inline</p>");
    match converter.object_source(1) {
        PageSource::Inline(html) => assert_eq!(html, "<p>inline</p>"),
        _ => panic!("non-empty payload must win"),
    }

    // The pinned quirk: an empty payload falls back to the `page` setting.
    let mut object = PdfObjectSettings::new(33);
    object
        .set("page", "https://example.invalid/c", true)
        .expect("accepted setting");
    converter.add_html_object(object, "");
    match converter.object_source(2) {
        PageSource::PageSetting(page) => assert_eq!(page, "https://example.invalid/c"),
        _ => panic!("empty payload must fall back to the page setting"),
    }

    // An empty payload with no `page` setting leaves the source unset.
    let object = PdfObjectSettings::new(34);
    converter.add_html_object(object, "");
    assert!(matches!(converter.object_source(3), PageSource::Unspecified));
}

#[test]
fn setting_failures() {
    let mut global = PdfGlobalSettings::new(11);
    let rejected = global.set("orientation", "Sideways", false);
    match rejected {
        Err(Error::GlobalSettingFailure(name, value)) => {
            assert_eq!(name, "orientation");
            assert_eq!(value, "Sideways");
        },
        _ => panic!("a rejected pair must fail as a global-setting failure"),
    }

    let embedded_null = global.set("orient\0ation", "Landscape", true);
    match embedded_null {
        Err(Error::EncodingFailure(name, value)) => {
            assert_eq!(name, "orient\0ation");
            assert_eq!(value, "Landscape");
        },
        _ => panic!("an embedded null must fail as an encoding failure"),
    }

    let mut object = PdfObjectSettings::new(31);
    let rejected = object.set("header.line", "maybe", false);
    assert!(matches!(rejected, Err(Error::ObjectSettingFailure(_, _))));
    let embedded_null = object.set("page", "http://x\0y", true);
    assert!(matches!(embedded_null, Err(Error::EncodingFailure(_, _))));
}

#[test]
fn output_reads_are_sequential_and_single_pass() {
    let mut engine = EngineCore::new();
    let mut registry = CallbackRegistry::new();
    let _guard = pdf_init(&mut engine, true).expect("init");
    PdfGlobalSettings::acquire(&mut engine).expect("acquire");
    let global = PdfGlobalSettings::new(11);
    let converter = global.create_converter(21);
    converter.setup_callbacks(&mut registry);
    let received = registry.finish(21, 1);
    let mut output = converter
        .convert(&mut registry, &mut engine, true, received, vec![1, 2, 3, 4, 5])
        .expect("output");

    assert_eq!(output.read(2), vec![1, 2]);
    assert_eq!(output.read(2), vec![3, 4]);
    assert_eq!(output.remaining(), 1);
    assert_eq!(output.read(2), vec![5]);
    // Fully consumed: further reads report end of data.
    assert_eq!(output.read(2), Vec::<u8>::new());
    assert_eq!(output.remaining(), 0);
    output.release(&mut engine);
    assert_eq!(engine.state(), EngineState::Ready);
}
