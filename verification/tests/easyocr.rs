use easyocr_rs::adapter::encode_image;
use easyocr_rs::bridge::reader_config;
use easyocr_rs::run_args::{effective_decoder, run_config};
use easyocr_rs::stager::{cache_dir_name, craft_model_name, en_model_name, stage_plan};
use easyocr_rs::{BoundingBox, DetectedText, EasyOcrErr, EasyOcrRunArgs, OCRData, RawDetection};

fn bits(v: f32) -> u32 {
    v.to_bits()
}

fn pt(x: f32, y: f32) -> [u32; 2] {
    [bits(x), bits(y)]
}

#[test]
fn decoder_known_choices_are_kept() {
    assert_eq!(effective_decoder("beamsearch"), "beamsearch");
    assert_eq!(effective_decoder("wordbeamsearch"), "wordbeamsearch");
    assert_eq!(effective_decoder("greedy"), "greedy");
}

#[test]
fn decoder_unknown_choices_fall_back_to_greedy() {
    assert_eq!(effective_decoder("viterbi"), "greedy");
    assert_eq!(effective_decoder(""), "greedy");
    assert_eq!(effective_decoder("GREEDY"), "greedy");
    assert_eq!(effective_decoder("beamsearch "), "greedy");
}

#[test]
fn run_args_defaults() {
    let d = EasyOcrRunArgs::default();
    assert_eq!(d.decoder, "greedy");
    assert_eq!(d.rotations, &[] as &[u16]);
    assert_eq!(d.cpus, 0);
    assert!(!d.paragraph);
}

#[test]
fn run_config_from_none_uses_defaults() {
    let c = run_config(None);
    assert_eq!(c.detail, 1);
    assert_eq!(c.decoder, "greedy");
    assert!(c.rotation_info.is_empty());
    assert_eq!(c.workers, 0);
    assert!(!c.paragraph);
}

#[test]
fn run_config_forwards_and_validates() {
    let args = EasyOcrRunArgs {
        decoder: "not-a-decoder",
        rotations: &[90, 180, 270],
        cpus: 4,
        paragraph: true,
    };
    let c = run_config(Some(args));
    assert_eq!(c.detail, 1);
    assert_eq!(c.decoder, "greedy");
    assert_eq!(c.rotation_info, vec![90, 180, 270]);
    assert_eq!(c.workers, 4);
    assert!(c.paragraph);

    let keep = run_config(Some(EasyOcrRunArgs {
        decoder: "wordbeamsearch",
        ..Default::default()
    }));
    assert_eq!(keep.decoder, "wordbeamsearch");
}

#[test]
fn bbox_fields_are_assigned_positionally() {
    let p0 = pt(1.0, 2.0);
    let p1 = pt(3.0, 4.0);
    let p2 = pt(5.0, 6.0);
    let p3 = pt(7.0, 8.0);
    let bb = BoundingBox::from([p0, p1, p2, p3]);
    assert_eq!(bb.tl, p0);
    assert_eq!(bb.tr, p1);
    assert_eq!(bb.br, p2);
    assert_eq!(bb.bl, p3);
}

#[test]
fn ocr_data_preserves_order_and_fields() {
    let raws: Vec<RawDetection> = vec![
        (
            [pt(0.0, 0.0), pt(1.0, 0.0), pt(1.0, 1.0), pt(0.0, 1.0)],
            "first".to_string(),
            bits(0.25),
        ),
        (
            [pt(2.0, 0.0), pt(3.0, 0.0), pt(3.0, 1.0), pt(2.0, 1.0)],
            "second".to_string(),
            bits(0.5),
        ),
        (
            [pt(4.0, 0.0), pt(5.0, 0.0), pt(5.0, 1.0), pt(4.0, 1.0)],
            "third".to_string(),
            bits(0.75),
        ),
    ];
    let expect: Vec<DetectedText> = raws
        .iter()
        .map(|r| DetectedText {
            bbox: BoundingBox::from(r.0),
            text: r.1.clone(),
            confidence: r.2,
        })
        .collect();
    let data = OCRData::from_detail1(raws);
    assert_eq!(data.texts.len(), 3);
    assert_eq!(data.texts, expect);
    assert_eq!(data.into_txt_vec(), vec!["first", "second", "third"]);
}

#[test]
fn empty_input_yields_empty_data() {
    let data = OCRData::from_detail1(Vec::new());
    assert!(data.texts.is_empty());
    assert!(data.into_txt_vec().is_empty());
}

#[test]
fn end_to_end_hello_example() {
    let raw: RawDetection = (
        [pt(10.0, 10.0), pt(50.0, 10.0), pt(50.0, 30.0), pt(10.0, 30.0)],
        "HELLO".to_string(),
        bits(0.95),
    );
    let data = OCRData::from_detail1(vec![raw]);
    assert_eq!(data.texts.len(), 1);
    let dt = &data.texts[0];
    assert_eq!(dt.bbox.tl, pt(10.0, 10.0));
    assert_eq!(dt.bbox.tr, pt(50.0, 10.0));
    assert_eq!(dt.bbox.br, pt(50.0, 30.0));
    assert_eq!(dt.bbox.bl, pt(10.0, 30.0));
    assert_eq!(dt.text, "HELLO");
    assert_eq!(f32::from_bits(dt.confidence), 0.95);
    assert_eq!(data.into_txt_vec(), vec!["HELLO"]);
}

#[test]
fn cache_dir_name_is_version_scoped_and_deterministic() {
    assert_eq!(cache_dir_name("1.2.3"), "easyocr-models-v1.2.3");
    assert_eq!(cache_dir_name("1.2.3"), cache_dir_name("1.2.3"));
    assert_ne!(cache_dir_name("1.2.3"), cache_dir_name("1.2.4"));
}

#[test]
fn model_file_names_are_fixed() {
    assert_eq!(craft_model_name(), "craft_mlt_25k.pth");
    assert_eq!(en_model_name(), "english_g2.pth");
}

#[test]
fn staging_writes_each_file_at_most_once() {
    // First pass in a fresh process over an empty temp dir: everything is made.
    let first = stage_plan(false, false, false, false);
    assert!(first.create_dir && first.write_en && first.write_craft);
    // A file or directory that already exists is skipped, not rewritten.
    let partial = stage_plan(false, true, true, false);
    assert!(!partial.create_dir && !partial.write_en && partial.write_craft);
    // Once the idempotency flag is set, later passes do no filesystem work.
    let later = stage_plan(true, true, true, true);
    assert!(!later.create_dir && !later.write_en && !later.write_craft);
    let later_any_fs = stage_plan(true, false, false, false);
    assert!(!later_any_fs.create_dir && !later_any_fs.write_en && !later_any_fs.write_craft);
}

#[test]
fn reader_config_pins_the_construction_call() {
    let c = reader_config("/tmp/easyocr-models-v0.1.0", true, false);
    assert_eq!(c.lang_list, vec!["en"]);
    assert_eq!(c.model_storage_directory, "/tmp/easyocr-models-v0.1.0");
    assert_eq!(c.user_network_directory, "/tmp/easyocr-models-v0.1.0");
    assert!(!c.download_enabled);
    assert!(c.gpu);
    assert_eq!(c.verbose, Some(false));

    let dbg = reader_config("/elsewhere", false, true);
    assert!(!dbg.gpu);
    assert_eq!(dbg.verbose, None);
}

#[test]
fn error_messages_name_their_side() {
    let io = EasyOcrErr::IO("writing a model file".to_string());
    assert_eq!(io.message(), "An error occurred while writing a model file");
    let py = EasyOcrErr::Python("boom".to_string());
    assert_eq!(py.message(), "An error occurred on Python Side: boom");
}

#[test]
fn encode_image_reports_codec_failure_as_io() {
    // The PNG codec rejects zero-width images; the adapter must surface that
    // as the resource error kind, never as a Python-side failure.
    let img = image::DynamicImage::new_rgb8(0, 1);
    match encode_image(&img) {
        Err(EasyOcrErr::IO(_)) => {}
        other => panic!("expected an IO error, got {:?}", other),
    }
}

#[test]
fn encode_image_produces_a_png_stream() {
    let img = image::DynamicImage::new_rgb8(2, 2);
    let bytes = encode_image(&img).unwrap();
    assert!(bytes.len() > 8);
    assert_eq!(&bytes[..8], &[0x89, 0x50, 0x4E, 0x47, 0x0D, 0x0A, 0x1A, 0x0A]);
    // The stream is a value of the image: encoding again gives the same bytes.
    assert_eq!(encode_image(&img).unwrap(), bytes);
}
