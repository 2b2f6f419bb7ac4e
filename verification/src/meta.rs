//! What an adapter says of itself.
use vstd::prelude::*;

verus! {

/// A quick way to tell that a file is for an adapter.
#[derive(Debug, PartialEq, Eq)]
pub enum FastFileMatcher<S = String> {
    /// By the extension of its name, without the dot.
    FileExtension(S),
}

impl View for FastFileMatcher {
    type V = FastFileMatcher<Seq<char>>;

    open spec fn view(&self) -> FastFileMatcher<Seq<char>> {
        match self {
            FastFileMatcher::FileExtension(extension) => FastFileMatcher::FileExtension(
                extension@,
            ),
        }
    }
}

/// A way to tell that a file is for an adapter.
#[derive(Debug, PartialEq, Eq)]
pub enum FileMatcher<S = String> {
    Fast(FastFileMatcher<S>),
    /// By the type that its content shows.
    MimeType(S),
}

impl View for FileMatcher {
    type V = FileMatcher<Seq<char>>;

    open spec fn view(&self) -> FileMatcher<Seq<char>> {
        match self {
            FileMatcher::Fast(matcher) => FileMatcher::Fast(matcher@),
            FileMatcher::MimeType(mime_type) => FileMatcher::MimeType(mime_type@),
        }
    }
}

/// The description of an adapter.
#[derive(Debug, PartialEq, Eq)]
pub struct AdapterMeta<S = String, F = Vec<FastFileMatcher>, L = Vec<FileMatcher>> {
    /// Short name.
    pub name: S,
    /// Raised whenever the output of the adapter changes.
    pub version: i32,
    pub description: S,
    /// Whether the adapter hands out further files to search.
    pub recurses: bool,
    pub fast_matchers: F,
    pub slow_matchers: Option<L>,
    pub keep_fast_matchers_if_accurate: bool,
    pub disabled_by_default: bool,
}

/// What an [`AdapterMeta`] stands for.
pub type AdapterMetaView = AdapterMeta<
    Seq<char>,
    Seq<FastFileMatcher<Seq<char>>>,
    Seq<FileMatcher<Seq<char>>>,
>;

impl View for AdapterMeta {
    type V = AdapterMetaView;

    open spec fn view(&self) -> AdapterMetaView {
        AdapterMeta {
            name: self.name@,
            version: self.version,
            description: self.description@,
            recurses: self.recurses,
            fast_matchers: self.fast_matchers@.map_values(|matcher: FastFileMatcher| matcher@),
            slow_matchers: match self.slow_matchers {
                Some(matchers) => Some(matchers@.map_values(|matcher: FileMatcher| matcher@)),
                None => None,
            },
            keep_fast_matchers_if_accurate: self.keep_fast_matchers_if_accurate,
            disabled_by_default: self.disabled_by_default,
        }
    }
}

/// The description of an adapter that takes files with the two given extensions for archives and
/// hands out what they hold.
pub open spec fn spec_archive_meta(
    name: Seq<char>,
    description: Seq<char>,
    extensions: (Seq<char>, Seq<char>),
) -> AdapterMetaView {
    AdapterMeta {
        name,
        version: 1,
        description,
        recurses: true,
        fast_matchers: seq![
            FastFileMatcher::FileExtension(extensions.0),
            FastFileMatcher::FileExtension(extensions.1),
        ],
        slow_matchers: None,
        keep_fast_matchers_if_accurate: true,
        disabled_by_default: false,
    }
}

/// Describes an adapter for archives.
pub fn archive_meta(name: &str, description: &str, extensions: (&str, &str)) -> (res: AdapterMeta)
    ensures
        res@ == spec_archive_meta(name@, description@, (extensions.0@, extensions.1@)),
        res.name@ == name@,
        res.version == 1,
        res.description@ == description@,
        res.recurses,
        res.fast_matchers@.len() == 2,
        res.fast_matchers@[0] matches FastFileMatcher::FileExtension(extension) && extension@
            == extensions.0@,
        res.fast_matchers@[1] matches FastFileMatcher::FileExtension(extension) && extension@
            == extensions.1@,
        res.slow_matchers is None,
        res.keep_fast_matchers_if_accurate,
        !res.disabled_by_default,
{
    let res = AdapterMeta {
        name: name.to_owned(),
        version: 1,
        description: description.to_owned(),
        recurses: true,
        fast_matchers: vec![
            FastFileMatcher::FileExtension(extensions.0.to_owned()),
            FastFileMatcher::FileExtension(extensions.1.to_owned()),
        ],
        slow_matchers: None,
        keep_fast_matchers_if_accurate: true,
        disabled_by_default: false,
    };
    assert(res@.fast_matchers == spec_archive_meta(
        name@,
        description@,
        (extensions.0@, extensions.1@),
    ).fast_matchers);
    res
}

/// An adapter for archives is described by its name and what it does, takes files with either of its two
/// extensions and no others, hands out further files, and is in use unless it is switched off.
pub proof fn law_archive_meta(
    name: Seq<char>,
    description: Seq<char>,
    extensions: (Seq<char>, Seq<char>),
    extension: Seq<char>,
)
    ensures
        ({
            let meta = spec_archive_meta(name, description, extensions);
            &&& meta.name == name
            &&& meta.version == 1
            &&& meta.description == description
            &&& meta.recurses
            &&& meta.fast_matchers.len() == 2
            &&& meta.fast_matchers.contains(FastFileMatcher::FileExtension(extension)) <==> (
            extension == extensions.0 || extension == extensions.1)
            &&& meta.slow_matchers is None
            &&& meta.keep_fast_matchers_if_accurate
            &&& !meta.disabled_by_default
        }),
{
    let matchers = spec_archive_meta(name, description, extensions).fast_matchers;
    assert(matchers[0] == FastFileMatcher::FileExtension(extensions.0));
    assert(matchers[1] == FastFileMatcher::FileExtension(extensions.1));
}

} // verus!
