//! Splitting the output of a query across several files, and the names of those files.
use vstd::prelude::*;
use crate::digits::{decimal_digits, push_decimal};
use crate::sizing::FileSizeLimit;

verus! {

/// Decimal digits of `n`, with zeros in front up to `len` characters.
pub open spec fn zero_padded(n: nat, len: nat) -> Seq<char> {
    let d = decimal_digits(n);
    if d.len() >= len {
        d
    } else {
        Seq::new((len - d.len()) as nat, |i: int| '0') + d
    }
}

fn decimal_len(n: u32) -> (r: usize)
    ensures
        r == decimal_digits(n as nat).len(),
        1 <= r <= n as int + 1,
    decreases n,
{
    if n < 10 {
        1
    } else {
        let k = decimal_len(n / 10);
        k + 1
    }
}

/// Decimal digits of `n`, with zeros in front up to `len` characters: the numeric suffix of
/// the `n`th output file.
pub fn file_suffix(n: u32, len: usize) -> (r: String)
    ensures
        r@ == zero_padded(n as nat, len as nat),
{
    let d = decimal_len(n);
    let mut out = String::new();
    if d < len {
        let mut i: usize = 0;
        while i < len - d
            invariant
                d < len,
                0 <= i <= len - d,
                out@ == Seq::new(i as nat, |j: int| '0'),
            decreases len - d - i,
        {
            out.append("0");
            proof {
                reveal_strlit("0");
            }
            assert(out@ =~= Seq::new((i + 1) as nat, |j: int| '0'));
            i = i + 1;
        }
    }
    push_decimal(&mut out, n as u64);
    assert(out@ =~= zero_padded(n as nat, len as nat));
    out
}

/// Where the output of a query stands: which file is written, with how many row groups and
/// bytes so far.
pub struct FileSplitter {
    limit: FileSizeLimit,
    num_file: u32,
    num_batch: u32,
    current_file_size: u64,
}

impl FileSplitter {
    pub closed spec fn limit_spec(&self) -> FileSizeLimit {
        self.limit
    }

    /// Number of the current file, starting at one.
    pub closed spec fn num_file_spec(&self) -> u32 {
        self.num_file
    }

    /// Row groups written into the current file.
    pub closed spec fn num_batch_spec(&self) -> u32 {
        self.num_batch
    }

    /// Bytes of the current file.
    pub closed spec fn current_file_size_spec(&self) -> u64 {
        self.current_file_size
    }

    pub open spec fn well_formed(&self) -> bool {
        self.limit_spec().well_formed() && self.num_file_spec() >= 1
    }

    /// The first file, empty.
    pub fn new(limit: FileSizeLimit) -> (r: Self)
        requires
            limit.well_formed(),
        ensures
            r.well_formed(),
            r.limit_spec() == limit,
            r.num_file_spec() == 1,
            r.num_batch_spec() == 0,
            r.current_file_size_spec() == 0,
    {
        FileSplitter { limit, num_file: 1, num_batch: 0, current_file_size: 0 }
    }

    pub fn num_file(&self) -> (r: u32)
        ensures
            r == self.num_file_spec(),
    {
        self.num_file
    }

    /// Asked before a row group is written. If the limit says so, moves on to the next file,
    /// empty, and returns `true`: the caller closes the current file and opens the next one.
    /// The file number stays at `u32::MAX` once it has reached it.
    pub fn before_row_group(&mut self) -> (r: bool)
        requires
            old(self).well_formed(),
        ensures
            final(self).well_formed(),
            final(self).limit_spec() == old(self).limit_spec(),
            r == old(self).limit_spec().starts_new_file(
                old(self).num_batch_spec(),
                old(self).current_file_size_spec(),
            ),
            r ==> final(self).num_file_spec() == if old(self).num_file_spec() < u32::MAX {
                (old(self).num_file_spec() + 1) as u32
            } else {
                u32::MAX
            } && final(self).num_batch_spec() == 0 && final(self).current_file_size_spec() == 0,
            !r ==> *final(self) == *old(self),
    {
        if self.limit.should_start_new_file(self.num_batch, self.current_file_size) {
            if self.num_file < u32::MAX {
                self.num_file = self.num_file + 1;
            }
            self.num_batch = 0;
            self.current_file_size = 0;
            true
        } else {
            false
        }
    }

    /// Records a row group written into the current file, which is now `current_file_size`
    /// bytes large. The row group count stays at `u32::MAX` once it has reached it.
    pub fn after_row_group(&mut self, current_file_size: u64)
        requires
            old(self).well_formed(),
        ensures
            final(self).well_formed(),
            final(self).limit_spec() == old(self).limit_spec(),
            final(self).num_file_spec() == old(self).num_file_spec(),
            final(self).num_batch_spec() == if old(self).num_batch_spec() < u32::MAX {
                (old(self).num_batch_spec() + 1) as u32
            } else {
                u32::MAX
            },
            final(self).current_file_size_spec() == current_file_size,
    {
        if self.num_batch < u32::MAX {
            self.num_batch = self.num_batch + 1;
        }
        self.current_file_size = current_file_size;
    }
}

} // verus!
