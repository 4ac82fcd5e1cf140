use kakigoori_worker::file_processors::{Avif, FileProcessor, Format, Invocation, WebP};

fn texts(items: &[&str]) -> Vec<String> {
    items.iter().map(|item| item.to_string()).collect()
}

#[test]
fn avif_runs_avifenc_with_its_fixed_arguments() {
    let invocation = (Avif {}).process("/tmp/a_input", "/tmp/a_output");
    assert_eq!(
        invocation,
        Invocation {
            program: "/usr/bin/avifenc".to_string(),
            arguments: texts(&[
                "-c",
                "aom",
                "-s",
                "4",
                "-j",
                "8",
                "-d",
                "10",
                "-y",
                "444",
                "-q",
                "50",
                "-a",
                "end-usage=q",
                "-a",
                "cq-level=35",
                "-a",
                "tune=iq",
                "/tmp/a_input",
                "/tmp/a_output",
            ]),
        }
    );
}

#[test]
fn webp_runs_cwebp_with_its_fixed_arguments() {
    let invocation = (WebP {}).process("in file", "out file");
    assert_eq!(
        invocation,
        Invocation {
            program: "/usr/bin/cwebp".to_string(),
            arguments: texts(&[
                "/usr/bin/webp",
                "-q",
                "75",
                "in file",
                "-metadata",
                "icc",
                "-o",
                "out file",
            ]),
        }
    );
}

#[test]
fn a_format_runs_the_encoder_of_its_name() {
    assert_eq!(Format::Avif.process("i", "o"), (Avif {}).process("i", "o"));
    assert_eq!(Format::WebP.process("i", "o"), (WebP {}).process("i", "o"));
    assert_ne!(Format::Avif.process("i", "o"), Format::WebP.process("i", "o"));
}

#[test]
fn formats_are_known_by_their_lower_case_names() {
    assert_eq!(Format::from_name("avif"), Some(Format::Avif));
    assert_eq!(Format::from_name("webp"), Some(Format::WebP));
    for name in ["", "bogus", "AVIF", "WebP", " avif", "avif ", "avi", "webpp", "jpeg"] {
        assert_eq!(Format::from_name(name), None);
    }
}

#[test]
fn formats_have_names_and_queues() {
    assert_eq!(Format::Avif.name(), "avif");
    assert_eq!(Format::WebP.name(), "webp");
    assert_eq!(Format::Avif.queue(), "kakigoori_avif");
    assert_eq!(Format::WebP.queue(), "kakigoori_webp");
    assert_eq!(Format::from_name(Format::Avif.name()), Some(Format::Avif));
    assert_eq!(Format::from_name(Format::WebP.name()), Some(Format::WebP));
}
