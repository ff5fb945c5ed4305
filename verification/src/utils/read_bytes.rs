//! Collecting the parts of a multipart upload: which parts are kept, under
//! which position, and when the upload is refused or cut short.

use vstd::prelude::*;

verus! {

/// What `str::parse::<i32>` makes of a string, where it accepts it.
pub uninterp spec fn parsed_i32(s: Seq<char>) -> Option<i32>;

/// `str::parse::<i32>`, its error dropped: the number that the string spells
/// in decimal, or nothing. The answer depends on the characters alone and is
/// named here.
#[verifier::external_body]
fn parse_i32(s: &str) -> (number: Option<i32>)
    ensures
        number == parsed_i32(s@),
{
    s.parse::<i32>().ok()
}

/// One part of an upload that was kept.
#[derive(Debug, Clone, PartialEq, Eq)]
pub struct Part {
    /// What the part holds. Never empty.
    pub bytes: Vec<u8>,
    /// The position the part asked for by its name, or the number of the
    /// part where its name is no number.
    pub position: i32,
    /// The part's `Content-Disposition` header, where it can be read as text.
    pub disposition: Option<String>,
}

/// A part is larger than an upload may be.
#[derive(Debug, Clone, Copy, PartialEq, Eq, Structural)]
pub struct Overflow;

/// Whether the upload goes on after a part.
#[derive(Debug, Clone, Copy, PartialEq, Eq, Structural)]
pub enum Progress {
    /// Further parts are read.
    Continue,
    /// As many parts are kept as are asked for: the rest is not read.
    Done,
}

/// The parts kept so far, and the number of the part that comes next.
pub struct Upload {
    files: Vec<Part>,
    incr_default_position: i32,
}

/// Whether a part is kept: it holds something.
pub open spec fn is_kept(file: Seq<u8>) -> bool {
    file.len() > 0
}

/// Whether enough parts are kept.
pub open spec fn enough(kept: nat, max_parts: u64) -> bool {
    kept >= max_parts
}

impl Upload {
    /// The parts kept so far.
    pub closed spec fn kept(&self) -> Seq<Part> {
        self.files@
    }

    /// How many parts were read so far, kept or not.
    pub closed spec fn read(&self) -> i32 {
        self.incr_default_position
    }

    /// What the upload becomes when a part is read that holds `file`, asks
    /// for `named` as its position and carries `disposition`. An empty part
    /// is counted and not kept.
    pub open spec fn follows_part(
        &self,
        before: &Self,
        file: Seq<u8>,
        named: Option<i32>,
        disposition: Option<String>,
    ) -> bool {
        &&& self.read() == before.read() + 1
        &&& if is_kept(file) {
            &&& self.kept().len() == before.kept().len() + 1
            &&& self.kept().drop_last() == before.kept()
            &&& self.kept().last().bytes@ == file
            &&& self.kept().last().position == match named {
                Some(position) => position,
                None => before.read(),
            }
            &&& self.kept().last().disposition == disposition
        } else {
            self.kept() == before.kept()
        }
    }

    /// An upload of which nothing was read yet.
    pub fn new() -> (upload: Self)
        ensures
            upload.kept() == Seq::<Part>::empty(),
            upload.read() == 0,
    {
        Upload { files: Vec::new(), incr_default_position: 0 }
    }

    /// Takes in a part whose name was already read as a number, or found to
    /// be none. A part over the size limit fails the upload and changes
    /// nothing. Otherwise the part is counted, kept if it holds anything,
    /// and the upload is done once as many parts are kept as `max_parts`
    /// asks for.
    pub fn take_part(
        &mut self,
        file: Vec<u8>,
        named: Option<i32>,
        disposition: Option<String>,
        max_parts: u64,
        max_upload_size: usize,
    ) -> (r: Result<Progress, Overflow>)
        requires
            old(self).read() < i32::MAX,
        ensures
            r is Err <==> file@.len() > max_upload_size,
            r is Err ==> *final(self) == *old(self),
            r is Ok ==> final(self).follows_part(old(self), file@, named, disposition),
            r matches Ok(progress) ==> progress == if enough(final(self).kept().len(), max_parts) {
                Progress::Done
            } else {
                Progress::Continue
            },
    {
        if file.len() > max_upload_size {
            return Err(Overflow);
        }
        if !file.is_empty() {
            let position: i32 = match named {
                Some(position) => position,
                None => self.incr_default_position,
            };
            let ghost earlier = self.files@;
            self.files.push(Part { bytes: file, position, disposition });
            proof {
                assert(self.files@.drop_last() =~= earlier);
            }
        }
        self.incr_default_position += 1;
        if self.files.len() as u64 >= max_parts {
            Ok(Progress::Done)
        } else {
            Ok(Progress::Continue)
        }
    }

    /// Takes in a part. Its name, where it has one, is read as a decimal
    /// number; the rest is [`Upload::take_part`].
    pub fn take_field(
        &mut self,
        file: Vec<u8>,
        name: Option<&str>,
        disposition: Option<String>,
        max_parts: u64,
        max_upload_size: usize,
    ) -> (r: Result<Progress, Overflow>)
        requires
            old(self).read() < i32::MAX,
        ensures
            r is Err <==> file@.len() > max_upload_size,
            r is Err ==> *final(self) == *old(self),
            r is Ok ==> final(self).follows_part(
                old(self),
                file@,
                match name {
                    Some(name) => parsed_i32(name@),
                    None => None,
                },
                disposition,
            ),
            r matches Ok(progress) ==> progress == if enough(final(self).kept().len(), max_parts) {
                Progress::Done
            } else {
                Progress::Continue
            },
    {
        let named = match name {
            Some(name) => parse_i32(name),
            None => None,
        };
        self.take_part(file, named, disposition, max_parts, max_upload_size)
    }

    /// How many parts were read so far, kept or not.
    pub fn parts_read(&self) -> (n: i32)
        ensures
            n == self.read(),
    {
        self.incr_default_position
    }

    /// The parts that were kept, in the order in which they came.
    pub fn finish(self) -> (files: Vec<Part>)
        ensures
            files@ == self.kept(),
    {
        self.files
    }
}

} // verus!
