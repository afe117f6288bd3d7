//! Image conversion: which command turns an image into a PNG, and what its
//! outcome means. Running the command is left to the caller.
use vstd::prelude::*;
use vstd::string::*;
use std::path::Path;
use crate::text::texts;

verus! {

/// The converter, by the path of its program.
#[derive(Debug)]
pub struct ImageMagick {
    pub path: String,
}

/// A conversion that is to be run: the program, its arguments, and the file
/// that it writes.
#[derive(Debug, PartialEq, Eq)]
pub struct Conversion {
    pub program: String,
    pub arguments: Vec<String>,
    pub target: String,
}

impl Default for ImageMagick {
    fn default() -> (converter: ImageMagick)
        ensures
            converter.path@ == "./magick/texconv.exe"@,
    {
        ImageMagick { path: "./magick/texconv.exe".to_owned() }
    }
}

/// Trusted: `std::path::Path::file_stem`. Nothing is promised of the result:
/// what counts as a separator depends on the platform.
#[verifier::external_body]
fn file_stem(path: &str) -> (stem: Option<String>) {
    Path::new(path).file_stem().and_then(|s| s.to_str()).map(|s| s.to_string())
}

/// Trusted: `std::path::Path::parent`. Nothing is promised of the result:
/// what counts as a separator depends on the platform.
#[verifier::external_body]
fn parent(path: &str) -> (directory: Option<String>) {
    Path::new(path).parent().and_then(|p| p.to_str()).map(|s| s.to_string())
}

/// Trusted: `std::path::Path::join`. Nothing is promised of the result: the
/// separator depends on the platform.
#[verifier::external_body]
fn join(directory: &str, name: &str) -> (path: Option<String>) {
    Path::new(directory).join(name).to_str().map(|s| s.to_string())
}

/// The arguments of the converter for `source`, writing into `directory`.
pub open spec fn conversion_arguments(source: Seq<char>, directory: Seq<char>) -> Seq<Seq<char>> {
    seq![
        source,
        "-nologo"@,
        "-ft"@,
        "png"@,
        "-y"@,
        "-o"@,
        directory,
        "-srgb"@,
        "-f"@,
        "R8G8B8A8_UNORM_SRGB"@,
    ]
}

/// What the converter reports: nothing where it ran and succeeded, what it
/// printed where it ran and failed, and a fixed message where it did not
/// run.
pub open spec fn report_of(ran: bool, succeeded: bool, printed: Seq<char>) -> Seq<char> {
    if !ran {
        "error when converting"@
    } else if succeeded {
        Seq::empty()
    } else {
        printed
    }
}

impl ImageMagick {
    /// The converter at `path`.
    pub fn new(path: &str) -> (converter: ImageMagick)
        ensures
            converter.path@ == path@,
    {
        ImageMagick { path: path.to_owned() }
    }

    /// The name of the PNG for an image with the stem `stem`.
    pub fn png_name(stem: &str) -> (name: String)
        ensures
            name@ == stem@ + ".png"@,
    {
        let mut name = stem.to_owned();
        name.append(".png");
        name
    }

    /// The conversion of `source_file` that writes `target` into
    /// `directory`.
    pub fn conversion(&self, source_file: &str, directory: String, target: String) -> (plan:
        Conversion)
        ensures
            plan.program@ == self.path@,
            texts(plan.arguments@) == conversion_arguments(source_file@, directory@),
            plan.target@ == target@,
    {
        let mut arguments: Vec<String> = Vec::new();
        arguments.push(source_file.to_owned());
        arguments.push("-nologo".to_owned());
        arguments.push("-ft".to_owned());
        arguments.push("png".to_owned());
        arguments.push("-y".to_owned());
        arguments.push("-o".to_owned());
        arguments.push(directory);
        arguments.push("-srgb".to_owned());
        arguments.push("-f".to_owned());
        arguments.push("R8G8B8A8_UNORM_SRGB".to_owned());
        assert(texts(arguments@) =~= conversion_arguments(source_file@, directory@));
        Conversion { program: self.path.clone(), arguments, target }
    }

    /// What the target is joined from, given the stem and the directory that
    /// the platform found in the path of the source: the directory, and the
    /// name of the PNG with that stem. There is none where the platform
    /// found no stem or no directory.
    pub fn target_parts(stem: Option<String>, directory: Option<String>) -> (parts: Option<
        (String, String),
    >)
        ensures
            parts is Some <==> stem is Some && directory is Some,
            parts matches Some(p) ==> p.0@ == directory->0@ && p.1@ == stem->0@ + ".png"@,
    {
        match (stem, directory) {
            (Some(stem), Some(directory)) => Some(
                (directory, ImageMagick::png_name(stem.as_str())),
            ),
            _ => None,
        }
    }

    /// The plan for `source_file`, given its directory and the target that
    /// the platform joined: the conversion that writes the target into the
    /// directory, and none where the platform gave no target.
    pub fn plan_for(&self, source_file: &str, directory: String, target: Option<String>) -> (plan:
        Option<Conversion>)
        ensures
            plan is Some <==> target is Some,
            plan matches Some(p) ==> p.program@ == self.path@ && texts(p.arguments@)
                == conversion_arguments(source_file@, directory@) && p.target@ == target->0@,
    {
        match target {
            Some(target) => Some(self.conversion(source_file, directory, target)),
            None => None,
        }
    }

    /// Plans the conversion of `source_file` into a PNG beside it: the
    /// target has the stem of the source and the extension `png`, and lies
    /// in the directory of the source. The platform decides what the stem
    /// and the directory of a path are and how a directory and a name are
    /// joined; there is no plan where it finds no stem or no directory, or
    /// joins no target. What is asked of the platform, and what is made of
    /// each of its answers, is stated by `target_parts` and `plan_for`.
    pub fn plan(&self, source_file: &str) -> (plan: Option<Conversion>)
        ensures
            plan matches Some(p) ==> p.program@ == self.path@ && exists|directory: Seq<char>|
                texts(p.arguments@) == conversion_arguments(source_file@, directory),
    {
        match ImageMagick::target_parts(file_stem(source_file), parent(source_file)) {
            Some((directory, name)) => {
                let target = join(directory.as_str(), name.as_str());
                self.plan_for(source_file, directory, target)
            },
            None => None,
        }
    }

    /// What the converter reports of a run.
    pub fn convert(&self, ran: bool, succeeded: bool, printed: &str) -> (report: String)
        ensures
            report@ == report_of(ran, succeeded, printed@),
    {
        if !ran {
            "error when converting".to_owned()
        } else if succeeded {
            String::new()
        } else {
            printed.to_owned()
        }
    }

    /// The PNG that a conversion wrote: its target, where the report is
    /// empty.
    pub fn convert_to_png(&self, plan: Conversion, report: &str) -> (png: Option<String>)
        ensures
            png is Some <==> report@.len() == 0,
            png matches Some(p) ==> p@ == plan.target@,
    {
        if report.is_empty() {
            Some(plan.target)
        } else {
            None
        }
    }
}

} // verus!
