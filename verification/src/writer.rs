//! Decisions of the font writer tool: which name each input gets and which files it writes.
use vstd::prelude::*;

verus! {

/// Reasons the font writer refuses its arguments.
#[derive(Clone, Copy, Debug, PartialEq, Eq, Structural)]
pub enum WriterError {
    /// A single `--name` was given for several input files.
    NameForManyInputs,
    /// An input has neither a given name nor a file stem.
    InvalidInput,
}

/// A file that the writer produces for a font named `name`.
#[derive(Clone, Copy, Debug, PartialEq, Eq, Structural)]
pub enum OutputFile {
    /// `<name>.sdfb`, the serialized SDF font.
    SdfFont,
    /// `<name>-atlas.png`, the atlas image.
    AtlasImage,
    /// `<name>-preview.png`, the preview image.
    PreviewImage,
    /// `<name>.svg`, the soccer field drawing.
    SoccerSvg,
}

/// File name suffix of each output file.
pub open spec fn spec_output_suffix(kind: OutputFile) -> Seq<char> {
    match kind {
        OutputFile::SdfFont => ".sdfb"@,
        OutputFile::AtlasImage => "-atlas.png"@,
        OutputFile::PreviewImage => "-preview.png"@,
        OutputFile::SoccerSvg => ".svg"@,
    }
}

/// Law: each output file of a font has its own fixed suffix after the font's name, so the
/// files the writer produces for one font never share a name.
pub proof fn lemma_output_suffixes()
    ensures
        spec_output_suffix(OutputFile::SdfFont) == ".sdfb"@,
        spec_output_suffix(OutputFile::AtlasImage) == "-atlas.png"@,
        spec_output_suffix(OutputFile::PreviewImage) == "-preview.png"@,
        spec_output_suffix(OutputFile::SoccerSvg) == ".svg"@,
        forall|a: OutputFile, b: OutputFile| a != b ==> spec_output_suffix(a) != spec_output_suffix(b),
{
    reveal_strlit(".sdfb");
    reveal_strlit("-atlas.png");
    reveal_strlit("-preview.png");
    reveal_strlit(".svg");
    assert forall|a: OutputFile, b: OutputFile| a != b implies spec_output_suffix(a)
        != spec_output_suffix(b) by {
        let sa = spec_output_suffix(a);
        let sb = spec_output_suffix(b);
        if sa.len() == sb.len() {
            assert(sa[1] != sb[1]);
        }
    }
}

/// A name given on the command line may only be used with a single input file.
pub fn check_input_names(input_count: usize, has_name: bool) -> (r: Result<(), WriterError>)
    ensures
        r is Err <==> (input_count > 1 && has_name),
        r is Err ==> r == Err::<(), WriterError>(WriterError::NameForManyInputs),
{
    if input_count > 1 && has_name {
        Err(WriterError::NameForManyInputs)
    } else {
        Ok(())
    }
}

/// Name of the font made from an input: the given name, else the input's file stem.
pub fn font_name(given: Option<&str>, file_stem: Option<&str>) -> (r: Result<String, WriterError>)
    ensures
        match (given, file_stem) {
            (Some(n), _) => r matches Ok(s) && s@ == n@,
            (None, Some(stem)) => r matches Ok(s) && s@ == stem@,
            (None, None) => r == Err::<String, WriterError>(WriterError::InvalidInput),
        },
{
    match given {
        Some(n) => Ok(n.to_owned()),
        None => match file_stem {
            Some(stem) => Ok(stem.to_owned()),
            None => Err(WriterError::InvalidInput),
        },
    }
}

/// File name of the output `kind` for the font `name`.
pub fn output_file_name(name: &str, kind: OutputFile) -> (r: String)
    ensures
        r@ == name@ + spec_output_suffix(kind),
{
    let mut r = name.to_owned();
    match kind {
        OutputFile::SdfFont => r.append(".sdfb"),
        OutputFile::AtlasImage => r.append("-atlas.png"),
        OutputFile::PreviewImage => r.append("-preview.png"),
        OutputFile::SoccerSvg => r.append(".svg"),
    }
    r
}

} // verus!
