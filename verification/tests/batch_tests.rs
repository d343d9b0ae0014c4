use jpeg_resizer::batch::{
    eligible, filter_eligible, has_extension, output_file_name, run_batch, BatchItem, Outcome,
    PathInfo,
};
use jpeg_resizer::encode::encode_jpeg;

fn sample_jpeg(w: u32, h: u32) -> Vec<u8> {
    let mut px = Vec::with_capacity((w * h * 3) as usize);
    for y in 0..h {
        for x in 0..w {
            px.push((x % 256) as u8);
            px.push((y % 256) as u8);
            px.push(128u8);
        }
    }
    encode_jpeg(&px, w, h, &Vec::new(), 70).expect("valid buffer encodes")
}

#[test]
fn one_corrupt_file_among_valid_files_is_isolated() {
    let good = sample_jpeg(32, 24);
    let items = vec![
        BatchItem { name: "a.jpg".to_string(), bytes: good.clone() },
        BatchItem { name: "bad.jpg".to_string(), bytes: vec![0xde, 0xad, 0xbe, 0xef] },
        BatchItem { name: "b.jpg".to_string(), bytes: good.clone() },
        BatchItem { name: "c.jpg".to_string(), bytes: good.clone() },
    ];
    let outcomes = run_batch(&items, 1280);
    assert_eq!(outcomes.len(), 4);
    let successes = outcomes.iter().filter(|o| matches!(o, Outcome::Success { .. })).count();
    let failures = outcomes.iter().filter(|o| matches!(o, Outcome::Failure { .. })).count();
    assert_eq!(successes, 3);
    assert_eq!(failures, 1);
    match &outcomes[1] {
        Outcome::Failure { name, reason } => {
            assert_eq!(name, "bad.jpg");
            assert!(!reason.is_empty());
        }
        Outcome::Success { .. } => panic!("the corrupt item must fail"),
    }
}

#[test]
fn empty_batch_yields_no_outcomes() {
    let outcomes = run_batch(&Vec::new(), 1280);
    assert_eq!(outcomes.len(), 0);
}

#[test]
fn extension_detection() {
    assert!(has_extension(&"a.jpg".to_string()));
    assert!(has_extension(&"a.b.c".to_string()));
    assert!(has_extension(&"a.".to_string()));
    assert!(!has_extension(&"README".to_string()));
    assert!(!has_extension(&".hidden".to_string()));
    assert!(!has_extension(&"".to_string()));
    assert!(!has_extension(&".".to_string()));
}

#[test]
fn directories_and_extensionless_names_are_silently_excluded() {
    let items = vec![
        PathInfo { name: "photo.jpg".to_string(), is_regular_file: true },
        PathInfo { name: "notes".to_string(), is_regular_file: true },
        PathInfo { name: "album.jpg".to_string(), is_regular_file: false },
        PathInfo { name: ".config".to_string(), is_regular_file: true },
        PathInfo { name: "scan.png".to_string(), is_regular_file: true },
    ];
    let kept = filter_eligible(&items);
    assert_eq!(kept, vec!["photo.jpg".to_string(), "scan.png".to_string()]);
}

#[test]
fn eligibility_needs_both_a_file_and_an_extension() {
    assert!(eligible(&"x.jpg".to_string(), true));
    assert!(!eligible(&"x.jpg".to_string(), false));
    assert!(!eligible(&"x".to_string(), true));
}

#[test]
fn output_name_gets_the_fixed_prefix() {
    assert_eq!(output_file_name(&"x.jpg".to_string()), "resized_x.jpg");
}

#[test]
fn outcome_messages_match_the_console_format() {
    let ok = Outcome::Success { name: "x.jpg".to_string() };
    assert_eq!(ok.message(), "x.jpg is compressed.");
    let bad = Outcome::Failure { name: "y.jpg".to_string(), reason: "broken".to_string() };
    assert_eq!(bad.message(), "y.jpg FAILED due to broken");
}
