//! The external encoders, one per image format, each with its fixed argument
//! list.

use vstd::prelude::*;
use vstd::string::*;

verus! {

/// One run of an external program: its path and the arguments handed to it.
#[derive(Clone, Debug, PartialEq, Eq)]
pub struct Invocation {
    pub program: String,
    pub arguments: Vec<String>,
}

/// An [`Invocation`] as plain text.
pub struct InvocationView {
    pub program: Seq<char>,
    pub arguments: Seq<Seq<char>>,
}

impl View for Invocation {
    type V = InvocationView;

    open spec fn view(&self) -> InvocationView {
        InvocationView { program: self.program@, arguments: self.arguments.deep_view() }
    }
}

/// A transformation of one image file into another by an external encoder.
pub trait FileProcessor {
    /// The encoder run that turns `input_file` into `output_file`.
    spec fn command_line(&self, input_file: Seq<char>, output_file: Seq<char>) -> InvocationView;

    /// Builds the encoder run for the two paths. Nothing is started here: the
    /// caller launches the program and reports how it ended.
    fn process(&self, input_file: &str, output_file: &str) -> (invocation: Invocation)
        ensures
            invocation@ == self.command_line(input_file@, output_file@),
    ;
}

/// The AVIF encoder.
pub struct Avif {}

/// The arguments of the AVIF encoder: the AOM codec at speed 4 with 8 jobs,
/// 10 bits deep, 4:4:4 chroma, quality 50, tuned for constant quality.
pub open spec fn avif_arguments(input_file: Seq<char>, output_file: Seq<char>) -> Seq<Seq<char>> {
    seq![
        "-c"@,
        "aom"@,
        "-s"@,
        "4"@,
        "-j"@,
        "8"@,
        "-d"@,
        "10"@,
        "-y"@,
        "444"@,
        "-q"@,
        "50"@,
        "-a"@,
        "end-usage=q"@,
        "-a"@,
        "cq-level=35"@,
        "-a"@,
        "tune=iq"@,
        input_file,
        output_file,
    ]
}

impl FileProcessor for Avif {
    open spec fn command_line(&self, input_file: Seq<char>, output_file: Seq<char>) -> InvocationView {
        InvocationView {
            program: "/usr/bin/avifenc"@,
            arguments: avif_arguments(input_file, output_file),
        }
    }

    fn process(&self, input_file: &str, output_file: &str) -> (invocation: Invocation) {
        let mut arguments: Vec<String> = Vec::new();
        arguments.push("-c".to_owned());
        arguments.push("aom".to_owned());
        arguments.push("-s".to_owned());
        arguments.push("4".to_owned());
        arguments.push("-j".to_owned());
        arguments.push("8".to_owned());
        arguments.push("-d".to_owned());
        arguments.push("10".to_owned());
        arguments.push("-y".to_owned());
        arguments.push("444".to_owned());
        arguments.push("-q".to_owned());
        arguments.push("50".to_owned());
        arguments.push("-a".to_owned());
        arguments.push("end-usage=q".to_owned());
        arguments.push("-a".to_owned());
        arguments.push("cq-level=35".to_owned());
        arguments.push("-a".to_owned());
        arguments.push("tune=iq".to_owned());
        arguments.push(input_file.to_owned());
        arguments.push(output_file.to_owned());
        assert(arguments.deep_view() =~= avif_arguments(input_file@, output_file@));
        Invocation { program: "/usr/bin/avifenc".to_owned(), arguments }
    }
}

/// The WebP encoder.
pub struct WebP {}

/// The arguments of the WebP encoder: quality 75, keeping the ICC colour
/// profile of the input.
pub open spec fn webp_arguments(input_file: Seq<char>, output_file: Seq<char>) -> Seq<Seq<char>> {
    seq![
        "/usr/bin/webp"@,
        "-q"@,
        "75"@,
        input_file,
        "-metadata"@,
        "icc"@,
        "-o"@,
        output_file,
    ]
}

impl FileProcessor for WebP {
    open spec fn command_line(&self, input_file: Seq<char>, output_file: Seq<char>) -> InvocationView {
        InvocationView {
            program: "/usr/bin/cwebp"@,
            arguments: webp_arguments(input_file, output_file),
        }
    }

    fn process(&self, input_file: &str, output_file: &str) -> (invocation: Invocation) {
        let mut arguments: Vec<String> = Vec::new();
        arguments.push("/usr/bin/webp".to_owned());
        arguments.push("-q".to_owned());
        arguments.push("75".to_owned());
        arguments.push(input_file.to_owned());
        arguments.push("-metadata".to_owned());
        arguments.push("icc".to_owned());
        arguments.push("-o".to_owned());
        arguments.push(output_file.to_owned());
        assert(arguments.deep_view() =~= webp_arguments(input_file@, output_file@));
        Invocation { program: "/usr/bin/cwebp".to_owned(), arguments }
    }
}

/// An image format that the worker can encode to.
#[derive(Clone, Copy, Debug, PartialEq, Eq)]
pub enum Format {
    Avif,
    WebP,
}

impl Format {
    /// The format that `name` names: `avif` or `webp`, in lower case.
    pub open spec fn named(name: Seq<char>) -> Option<Format> {
        if name == "avif"@ {
            Some(Format::Avif)
        } else if name == "webp"@ {
            Some(Format::WebP)
        } else {
            None
        }
    }

    /// The name of the format.
    pub open spec fn name_text(self) -> Seq<char> {
        match self {
            Format::Avif => "avif"@,
            Format::WebP => "webp"@,
        }
    }

    /// The queue that carries the jobs of the format.
    pub open spec fn queue_text(self) -> Seq<char> {
        "kakigoori_"@ + self.name_text()
    }

    /// Looks a format up by its name. Names that are not known give `None`.
    pub fn from_name(name: &str) -> (format: Option<Format>)
        ensures
            format == Self::named(name@),
    {
        let name = name.to_owned();
        if name == "avif".to_owned() {
            Some(Format::Avif)
        } else if name == "webp".to_owned() {
            Some(Format::WebP)
        } else {
            None
        }
    }

    /// The name of the format.
    pub fn name(&self) -> (name: &'static str)
        ensures
            name@ == self.name_text(),
    {
        match self {
            Format::Avif => "avif",
            Format::WebP => "webp",
        }
    }

    /// The queue that carries the jobs of the format.
    pub fn queue(&self) -> (queue: String)
        ensures
            queue@ == self.queue_text(),
    {
        let mut queue = "kakigoori_".to_owned();
        queue.append(self.name());
        queue
    }
}

impl FileProcessor for Format {
    open spec fn command_line(&self, input_file: Seq<char>, output_file: Seq<char>) -> InvocationView {
        match *self {
            Format::Avif => (Avif {  }).command_line(input_file, output_file),
            Format::WebP => (WebP {  }).command_line(input_file, output_file),
        }
    }

    fn process(&self, input_file: &str, output_file: &str) -> (invocation: Invocation) {
        match self {
            Format::Avif => (Avif {  }).process(input_file, output_file),
            Format::WebP => (WebP {  }).process(input_file, output_file),
        }
    }
}

} // verus!
