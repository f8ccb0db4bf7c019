use vstd::prelude::*;

verus! {

/// The stem that `std::path::Path::file_stem` gives for a path.
pub uninterp spec fn path_stem(p: Seq<char>) -> Option<Seq<char>>;

/// The extension that `std::path::Path::extension` gives for a path.
pub uninterp spec fn path_extension(p: Seq<char>) -> Option<Seq<char>>;

/// The directory that `std::path::Path::parent` gives for a path.
pub uninterp spec fn path_parent(p: Seq<char>) -> Option<Seq<char>>;

/// The path that `std::path::Path::join` makes of a directory and a name.
pub uninterp spec fn path_join(dir: Seq<char>, name: Seq<char>) -> Seq<char>;

/// Relies on `std::path::Path::file_stem`: the file name without its last
/// extension.
#[verifier::external_body]
fn file_stem_of(p: &str) -> (r: Option<String>)
    ensures
        match r {
            Some(s) => path_stem(p@) == Some(s@),
            None => path_stem(p@) is None,
        },
{
    std::path::Path::new(p).file_stem().and_then(|s| s.to_str()).map(String::from)
}

/// Relies on `std::path::Path::extension`: the part of the file name after its
/// last dot.
#[verifier::external_body]
fn extension_of(p: &str) -> (r: Option<String>)
    ensures
        match r {
            Some(s) => path_extension(p@) == Some(s@),
            None => path_extension(p@) is None,
        },
{
    std::path::Path::new(p).extension().and_then(|s| s.to_str()).map(String::from)
}

/// Relies on `std::path::Path::parent`: the path without its last component.
#[verifier::external_body]
fn parent_of(p: &str) -> (r: Option<String>)
    ensures
        match r {
            Some(s) => path_parent(p@) == Some(s@),
            None => path_parent(p@) is None,
        },
{
    std::path::Path::new(p).parent().and_then(|d| d.to_str()).map(String::from)
}

/// Relies on `std::path::Path::join`: `name` placed inside `dir`.
#[verifier::external_body]
fn join_path(dir: &str, name: &str) -> (r: String)
    ensures
        r@ == path_join(dir@, name@),
{
    std::path::Path::new(dir).join(name).to_string_lossy().into_owned()
}

/// The name of the output file: the input's stem (`output` where it has none),
/// then `_parsed`, then a dot and the input's extension where it has one.
pub open spec fn output_name_of(stem: Option<Seq<char>>, ext: Option<Seq<char>>) -> Seq<char> {
    let s = match stem {
        Some(s) => s,
        None => "output"@,
    };
    let e = match ext {
        Some(e) => seq!['.'] + e,
        None => Seq::empty(),
    };
    s + "_parsed"@ + e
}

/// The path of the output file for an input file: beside it, under the name
/// that `output_name_of` gives.
pub open spec fn output_path_of(p: Seq<char>) -> Seq<char> {
    let dir = match path_parent(p) {
        Some(d) => d,
        None => Seq::empty(),
    };
    path_join(dir, output_name_of(path_stem(p), path_extension(p)))
}

/// Writes results for the user.
pub struct Output;

impl Output {
    /// The output file's name for an input file's stem and extension.
    pub fn output_name(stem: Option<&str>, ext: Option<&str>) -> (r: String)
        ensures
            r@ == output_name_of(
                match stem {
                    Some(s) => Some(s@),
                    None => None,
                },
                match ext {
                    Some(e) => Some(e@),
                    None => None,
                },
            ),
    {
        let mut name = match stem {
            Some(s) => String::from_str(s),
            None => String::from_str("output"),
        };
        name.append("_parsed");
        match ext {
            Some(e) => {
                name.append(".");
                name.append(e);
            },
            None => {},
        }
        proof {
            reveal_strlit(".");
        }
        assert(name@ =~= output_name_of(
            match stem {
                Some(s) => Some(s@),
                None => None,
            },
            match ext {
                Some(e) => Some(e@),
                None => None,
            },
        ));
        name
    }

    /// The path of the output file for an input file: the same directory, and
    /// the name `<stem>_parsed.<extension>` (`<stem>_parsed` where the input
    /// has no extension).
    pub fn generate_output_filename(path: &str) -> (r: String)
        ensures
            r@ == output_path_of(path@),
    {
        let stem = file_stem_of(path);
        let ext = extension_of(path);
        let name = match (&stem, &ext) {
            (Some(s), Some(e)) => Self::output_name(Some(s.as_str()), Some(e.as_str())),
            (Some(s), None) => Self::output_name(Some(s.as_str()), None),
            (None, Some(e)) => Self::output_name(None, Some(e.as_str())),
            (None, None) => Self::output_name(None, None),
        };
        match parent_of(path) {
            Some(d) => join_path(d.as_str(), name.as_str()),
            None => {
                proof {
                    reveal_strlit("");
                }
                assert(""@ =~= Seq::<char>::empty());
                join_path("", name.as_str())
            },
        }
    }
}

} // verus!
