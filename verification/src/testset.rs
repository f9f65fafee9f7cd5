//! Test sets: a directory named after a test and its block range, with one
//! folder for what was extracted and one for what was transformed. Paths are
//! plain texts with `/` between their components; the caller touches the disk.

use vstd::prelude::*;
use vstd::string::*;
use crate::config::{parse_u64, parsed_u64};
use crate::request::IndexingRequest;
use crate::text::{decimal, push_char, u128_text};

verus! {

/// The folder of a test set that holds the extracted data.
pub const EXT_FLDR_NAME: &'static str = "extraction";

/// The folder of a test set that holds the transformed data.
pub const TRANS_FLDR_NAME: &'static str = "transformation";

/// A named range of blocks whose extraction and transformation are kept on
/// disk, to be compared with later.
#[derive(Debug, Clone, PartialEq)]
pub struct TestSet {
    pub name: String,
    pub request: IndexingRequest,
    pub dirpath: String,
}

/// The parts of a text between the occurrences of a separator. There is one
/// part more than there are separators; parts may be empty.
pub open spec fn split(text: Seq<char>, separator: char) -> Seq<Seq<char>>
    decreases text.len(),
{
    if text.len() == 0 {
        seq![Seq::empty()]
    } else {
        let before = split(text.drop_last(), separator);
        if text.last() == separator {
            before.push(Seq::empty())
        } else {
            before.drop_last().push(before.last().push(text.last()))
        }
    }
}

/// The path of `name` inside the directory `dir`: a name that starts at the
/// root stands alone; else the name follows the directory, after a `/` unless
/// the directory is empty or ends in one already.
pub open spec fn child_path(dir: Seq<char>, name: Seq<char>) -> Seq<char> {
    if name.len() > 0 && name[0] == '/' {
        name
    } else if dir.len() == 0 || dir.last() == '/' {
        dir + name
    } else {
        dir + seq!['/'] + name
    }
}

/// Whether a part of a path is passed over where its last component is looked
/// for: an empty part (a separator at an end, or two in a row) and `.`.
pub open spec fn is_passed_over(part: Seq<char>) -> bool {
    part.len() == 0 || part == seq!['.']
}

/// The last of the parts that is not passed over; nothing where there is none
/// or where it is `..`.
pub open spec fn last_component(parts: Seq<Seq<char>>) -> Option<Seq<char>>
    decreases parts.len(),
{
    if parts.len() == 0 {
        None
    } else if is_passed_over(parts.last()) {
        last_component(parts.drop_last())
    } else if parts.last() == seq!['.', '.'] {
        None
    } else {
        Some(parts.last())
    }
}

/// The name of the file or directory that a path ends in. Separators at the
/// end and a final `.` are passed over; a path that ends in `..`, or that has
/// no component at all, has no name.
pub open spec fn file_name(path: Seq<char>) -> Option<Seq<char>> {
    last_component(split(path, '/'))
}

/// The name of the directory of a test set: the name of the test, the first
/// block and the last block, with `_` between them.
pub open spec fn testset_dirname(name: Seq<char>, request: IndexingRequest) -> Seq<char> {
    name + seq!['_'] + decimal(request.start as nat) + seq!['_'] + decimal(request.end as nat)
}

/// The name and the range that a directory name stands for: `name_start_end`,
/// where start and end are numbers; what follows a further `_` is not looked
/// at. Nothing where the name has fewer than three parts or a part that is no
/// number.
pub open spec fn name_and_range_of(dirname: Seq<char>) -> Option<(Seq<char>, u64, u64)> {
    let parts = split(dirname, '_');
    if parts.len() < 3 {
        None
    } else {
        match (parsed_u64(parts[1]), parsed_u64(parts[2])) {
            (Some(start), Some(end)) => Some((parts[0], start, end)),
            _ => None,
        }
    }
}

/// The name and the range that a path stands for: those of the name that the
/// path ends in. Nothing where the path has no name, or the name stands for
/// none.
pub open spec fn name_and_range(path: Seq<char>) -> Option<(Seq<char>, u64, u64)> {
    match file_name(path) {
        Some(dirname) => name_and_range_of(dirname),
        None => None,
    }
}

/// Whether a pair is the given name and the request for the given range that
/// selects nothing.
pub open spec fn is_name_and_request(
    pair: (String, IndexingRequest),
    name: Seq<char>,
    start: u64,
    end: u64,
) -> bool {
    pair.0@ == name && pair.1 == IndexingRequest::empty_selector(start, end)
}

/// The texts of a list of strings, with one more text after them.
spec fn parts_with(parts: Seq<String>, current: Seq<char>) -> Seq<Seq<char>> {
    Seq::new(parts.len() + 1, |i: int| if i < parts.len() {
        parts[i]@
    } else {
        current
    })
}

/// Cuts a text at each occurrence of the separator.
pub fn split_text(text: &str, separator: char) -> (out: Vec<String>)
    ensures
        Seq::new(out@.len(), |i: int| out@[i]@) == split(text@, separator),
{
    let len = text.unicode_len();
    let mut parts: Vec<String> = Vec::new();
    let mut current = String::new();
    let mut i: usize = 0;
    assert(text@.take(0) =~= Seq::<char>::empty());
    assert(parts_with(parts@, current@) =~= split(text@.take(0), separator));
    while i < len
        invariant
            i <= len,
            len == text@.len(),
            parts_with(parts@, current@) == split(text@.take(i as int), separator),
        decreases len - i,
    {
        let c = text.get_char(i);
        let ghost before = parts_with(parts@, current@);
        proof {
            assert(text@.take(i + 1).drop_last() =~= text@.take(i as int));
            assert(text@.take(i + 1).last() == c);
        }
        if c == separator {
            parts.push(current);
            current = String::new();
            assert(parts_with(parts@, current@) =~= before.push(Seq::empty()));
        } else {
            push_char(&mut current, c);
            assert(parts_with(parts@, current@) =~= before.drop_last().push(before.last().push(c)));
        }
        i += 1;
    }
    proof {
        assert(text@.take(i as int) =~= text@);
    }
    let ghost before = parts_with(parts@, current@);
    parts.push(current);
    assert(Seq::new(parts@.len(), |i: int| parts@[i]@) =~= before);
    parts
}

/// The path of `name` inside the directory `dir`.
pub fn join_path(dir: &str, name: &str) -> (out: String)
    ensures
        out@ == child_path(dir@, name@),
{
    if name.unicode_len() > 0 && name.get_char(0) == '/' {
        return String::from_str(name);
    }
    let dir_len = dir.unicode_len();
    let mut out = String::from_str(dir);
    if dir_len > 0 && dir.get_char(dir_len - 1) != '/' {
        push_char(&mut out, '/');
    }
    out.append(name);
    out
}

/// The name of the file or directory that a path ends in.
pub fn file_name_of(path: &str) -> (out: Option<String>)
    ensures
        out is Some <==> file_name(path@) is Some,
        out is Some ==> out->0@ == file_name(path@)->0,
{
    let segments = split_text(path, '/');
    let ghost parts = Seq::new(segments@.len(), |i: int| segments@[i]@);
    let mut i: usize = segments.len();
    assert(parts.take(i as int) =~= parts);
    while i > 0
        invariant
            i <= segments.len(),
            parts == Seq::new(segments@.len(), |i: int| segments@[i]@),
            parts == split(path@, '/'),
            last_component(parts) == last_component(parts.take(i as int)),
        decreases i,
    {
        let segment = &segments[i - 1];
        let len = segment.as_str().unicode_len();
        proof {
            assert(parts.take(i as int).last() == segment@);
            assert(parts.take(i as int).drop_last() =~= parts.take(i - 1));
        }
        if len == 0 {
            i -= 1;
        } else if len == 1 && segment.as_str().get_char(0) == '.' {
            assert(segment@ =~= seq!['.']);
            i -= 1;
        } else if len == 2 && segment.as_str().get_char(0) == '.' && segment.as_str().get_char(1)
            == '.' {
            assert(segment@ =~= seq!['.', '.']);
            assert(segment@ != seq!['.']);
            return None;
        } else {
            proof {
                if segment@ == seq!['.'] {
                    assert(seq!['.'].len() == 1);
                    assert(seq!['.'][0] == '.');
                }
                if segment@ == seq!['.', '.'] {
                    assert(seq!['.', '.'].len() == 2);
                    assert(seq!['.', '.'][0] == '.');
                    assert(seq!['.', '.'][1] == '.');
                }
            }
            return Some(segment.clone());
        }
    }
    None
}

impl TestSet {
    /// A new test set under `test_dir`. Its directory is named after the test
    /// and the range; making the directory and the two folders in it is left
    /// to the caller.
    pub fn create_new(test_dir: &str, name: String, request: IndexingRequest) -> (out: Self)
        ensures
            out.name == name,
            out.request == request,
            out.dirpath@ == child_path(test_dir@, testset_dirname(name@, request)),
    {
        let mut dirname = name.clone();
        push_char(&mut dirname, '_');
        dirname.append(u128_text(request.start as u128).as_str());
        push_char(&mut dirname, '_');
        dirname.append(u128_text(request.end as u128).as_str());
        let dirpath = join_path(test_dir, dirname.as_str());
        TestSet { name, request, dirpath }
    }

    /// The test set that the directory at `path` holds, read off its name.
    /// That the directory exists is for the caller to see to.
    pub fn load_existing(path: &str) -> (out: Option<Self>)
        ensures
            match name_and_range(path@) {
                Some((name, start, end)) => out is Some && out->0.name@ == name && out->0.request
                    == IndexingRequest::empty_selector(start, end) && out->0.dirpath@ == path@,
                None => out is None,
            },
    {
        match TestSet::name_and_request_from_path(path) {
            Some((name, request)) => Some(
                TestSet { name, request, dirpath: String::from_str(path) },
            ),
            None => None,
        }
    }

    /// The name of the test and the request for its range, read off the name
    /// that the path ends in. The request selects nothing.
    pub fn name_and_request_from_path(path: &str) -> (out: Option<(String, IndexingRequest)>)
        ensures
            match name_and_range(path@) {
                Some((name, start, end)) => out is Some && is_name_and_request(
                    out->0,
                    name,
                    start,
                    end,
                ),
                None => out is None,
            },
    {
        let dirname = match file_name_of(path) {
            Some(name) => name,
            None => {
                return None;
            },
        };
        let mut parts = split_text(dirname.as_str(), '_');
        let ghost part_texts = Seq::new(parts@.len(), |i: int| parts@[i]@);
        if parts.len() < 3 {
            return None;
        }
        assert(part_texts[0] == parts@[0]@);
        assert(part_texts[1] == parts@[1]@);
        assert(part_texts[2] == parts@[2]@);
        let start = match parse_u64(parts[1].as_str()) {
            Some(n) => n,
            None => {
                return None;
            },
        };
        let end = match parse_u64(parts[2].as_str()) {
            Some(n) => n,
            None => {
                return None;
            },
        };
        let name = parts.swap_remove(0);
        Some(
            (
                name,
                IndexingRequest {
                    start,
                    end,
                    blocks: false,
                    transactions: false,
                    logs: false,
                    decoded_events: false,
                    receipts: false,
                    traces: false,
                },
            ),
        )
    }

    /// The name and the request that the directory of the test set stands for.
    pub fn name_and_request(&self) -> (out: Option<(String, IndexingRequest)>)
        ensures
            match name_and_range(self.dirpath@) {
                Some((name, start, end)) => out is Some && is_name_and_request(
                    out->0,
                    name,
                    start,
                    end,
                ),
                None => out is None,
            },
    {
        TestSet::name_and_request_from_path(self.dirpath.as_str())
    }

    /// The folder that holds the extracted data of the test set.
    pub fn extraction_path(&self) -> (out: String)
        ensures
            out@ == child_path(self.dirpath@, EXT_FLDR_NAME@),
    {
        join_path(self.dirpath.as_str(), EXT_FLDR_NAME)
    }

    /// The folder that holds the transformed data of the test set.
    pub fn transformation_path(&self) -> (out: String)
        ensures
            out@ == child_path(self.dirpath@, TRANS_FLDR_NAME@),
    {
        join_path(self.dirpath.as_str(), TRANS_FLDR_NAME)
    }

    /// The file that holds the basic extraction of a block.
    pub fn basic_file(&self, block_number: u64) -> (out: String)
        ensures
            out@ == child_path(
                child_path(self.dirpath@, EXT_FLDR_NAME@),
                "basic_"@ + decimal(block_number as nat) + ".json"@,
            ),
    {
        let mut file = String::from_str("basic_");
        file.append(u128_text(block_number as u128).as_str());
        file.append(".json");
        join_path(self.extraction_path().as_str(), file.as_str())
    }

    /// The file that holds the trace extraction of a block.
    pub fn debug_file(&self, block_number: u64) -> (out: String)
        ensures
            out@ == child_path(
                child_path(self.dirpath@, EXT_FLDR_NAME@),
                "debug_"@ + decimal(block_number as nat) + ".json"@,
            ),
    {
        let mut file = String::from_str("debug_");
        file.append(u128_text(block_number as u128).as_str());
        file.append(".json");
        join_path(self.extraction_path().as_str(), file.as_str())
    }

    /// The file that holds the records of a block.
    pub fn records_file(&self, block_number: u64) -> (out: String)
        ensures
            out@ == child_path(
                child_path(self.dirpath@, TRANS_FLDR_NAME@),
                decimal(block_number as nat) + ".json"@,
            ),
    {
        let mut file = u128_text(block_number as u128);
        file.append(".json");
        join_path(self.transformation_path().as_str(), file.as_str())
    }
}

} // verus!
