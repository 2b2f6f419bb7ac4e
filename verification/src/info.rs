//! What is known of a file to search.
use vstd::prelude::*;

verus! {

/// A file to search: an archive, or a file found in one.
#[derive(Debug, PartialEq, Eq)]
pub struct AdaptInfo<S = String> {
    /// The path of the file, as it is displayed.
    pub filepath_hint: S,
    /// Whether the file stands on disk under that path.
    pub is_real_file: bool,
    /// What precedes each line of output for the file.
    pub line_prefix: S,
    /// How many archives the file is inside of.
    pub archive_recursion_depth: i32,
    pub postprocess: bool,
}

impl View for AdaptInfo {
    type V = AdaptInfo<Seq<char>>;

    open spec fn view(&self) -> AdaptInfo<Seq<char>> {
        AdaptInfo {
            filepath_hint: self.filepath_hint@,
            is_real_file: self.is_real_file,
            line_prefix: self.line_prefix@,
            archive_recursion_depth: self.archive_recursion_depth,
            postprocess: self.postprocess,
        }
    }
}

impl AdaptInfo<Seq<char>> {
    /// The file that stands in this archive under the name `entry`.
    pub open spec fn spec_member(self, entry: Seq<char>) -> AdaptInfo<Seq<char>> {
        AdaptInfo {
            filepath_hint: entry,
            is_real_file: false,
            line_prefix: self.line_prefix + entry + ": "@,
            archive_recursion_depth: (self.archive_recursion_depth + 1) as i32,
            postprocess: self.postprocess,
        }
    }
}

impl AdaptInfo {
    /// The file that stands in this archive under the name `entry`.
    pub fn member(&self, entry: &str) -> (res: AdaptInfo)
        requires
            self.archive_recursion_depth < i32::MAX,
        ensures
            res@ == self@.spec_member(entry@),
            res.filepath_hint@ == entry@,
            !res.is_real_file,
            res.line_prefix@ == self.line_prefix@ + entry@ + ": "@,
            res.archive_recursion_depth == self.archive_recursion_depth + 1,
            res.postprocess == self.postprocess,
    {
        AdaptInfo {
            filepath_hint: entry.to_owned(),
            is_real_file: false,
            line_prefix: self.line_prefix.clone().concat(entry).concat(": "),
            archive_recursion_depth: self.archive_recursion_depth + 1,
            postprocess: self.postprocess,
        }
    }
}

/// A file in an archive stands under the whole name of its entry, is no file on disk, is one archive
/// deeper, keeps the settings of the archive, and has its lines told apart by the entry behind the
/// prefix of the archive.
pub proof fn law_member(info: AdaptInfo<Seq<char>>, entry: Seq<char>)
    ensures
        info.spec_member(entry).filepath_hint == entry,
        !info.spec_member(entry).is_real_file,
        info.spec_member(entry).line_prefix == info.line_prefix + entry + ": "@,
        info.archive_recursion_depth < i32::MAX ==> info.spec_member(entry).archive_recursion_depth
            == info.archive_recursion_depth + 1,
        info.spec_member(entry).postprocess == info.postprocess,
{
}

/// The prefix for a file in an archive in an archive tells both entries, the outer one first.
pub proof fn law_nested_prefix(info: AdaptInfo<Seq<char>>, outer: Seq<char>, inner: Seq<char>)
    ensures
        info.spec_member(outer).spec_member(inner).line_prefix == info.line_prefix + outer + ": "@
            + inner + ": "@,
        info.archive_recursion_depth < i32::MAX - 1 ==> info.spec_member(outer).spec_member(
            inner,
        ).archive_recursion_depth == info.archive_recursion_depth + 2,
{
}

/// What a file to search stands for is all that is known of it.
pub proof fn law_info_view(info: AdaptInfo)
    ensures
        info@.filepath_hint == info.filepath_hint@,
        info@.is_real_file == info.is_real_file,
        info@.line_prefix == info.line_prefix@,
        info@.archive_recursion_depth == info.archive_recursion_depth,
        info@.postprocess == info.postprocess,
{
}

} // verus!
