//! Batch sizing and file splitting policy.
use vstd::prelude::*;
use crate::digits::{decimal_digits, push_decimal};

verus! {

/// One gibibyte in bytes.
pub const GIB: u64 = 1073741824;

/// Default limit for the number of rows in one batch. Some drivers use a 16 bit integer to
/// represent the fetch size, so the default stays within that range.
pub const DEFAULT_BATCH_SIZE_ROWS: usize = 65535;

/// Default memory budget of one batch: 2 GiB where `usize` has 64 bits, 1 GiB otherwise.
pub open spec fn default_batch_size_bytes_spec() -> u64 {
    if usize::MAX as int == u64::MAX as int {
        (2 * GIB) as u64
    } else {
        GIB
    }
}

/// Default memory budget of one batch in bytes.
pub fn default_batch_size_bytes() -> (r: u64)
    ensures
        r == default_batch_size_bytes_spec(),
{
    if usize::MAX as u64 == u64::MAX {
        2 * GIB
    } else {
        GIB
    }
}

/// A file reaches its row group bound before the next row group is written, if a positive
/// number of row groups have been written and that number is a multiple of the bound.
pub open spec fn row_group_bound_reached(num_batch: u32, row_groups: u32) -> bool {
    num_batch != 0 && num_batch % row_groups == 0
}

/// Describes how the size of individual output files is limited.
#[derive(Debug, Clone, Copy, PartialEq, Eq, Structural)]
pub enum FileSizeLimit {
    /// No limit. The entire output is written into one file.
    Unbounded,
    /// Limits the number of row groups written into an individual file.
    RowGroups(u32),
    /// Closes a file once it has reached this size in bytes.
    Size(u64),
    /// Either of the two limits ends a file.
    Both { row_groups: u32, size: u64 },
}

impl FileSizeLimit {
    /// A row group bound is never zero.
    pub open spec fn well_formed(&self) -> bool {
        match self {
            FileSizeLimit::RowGroups(n) => *n != 0,
            FileSizeLimit::Both { row_groups, .. } => *row_groups != 0,
            _ => true,
        }
    }

    pub open spec fn new_spec(num_row_groups: u32, file_size_threshold: Option<u64>) -> Self {
        match file_size_threshold {
            Option::None => if num_row_groups == 0 {
                FileSizeLimit::Unbounded
            } else {
                FileSizeLimit::RowGroups(num_row_groups)
            },
            Option::Some(size) => if num_row_groups == 0 {
                FileSizeLimit::Size(size)
            } else {
                FileSizeLimit::Both { row_groups: num_row_groups, size }
            },
        }
    }

    /// Whether a new file is to be started, given the number of row groups written so far and
    /// the size of the current file in bytes.
    pub open spec fn starts_new_file(&self, num_batch: u32, current_file_size: u64) -> bool {
        match self {
            FileSizeLimit::Unbounded => false,
            FileSizeLimit::RowGroups(row_groups) => row_group_bound_reached(num_batch, *row_groups),
            FileSizeLimit::Size(size) => current_file_size >= *size,
            FileSizeLimit::Both { row_groups, size } => row_group_bound_reached(
                num_batch,
                *row_groups,
            ) || current_file_size >= *size,
        }
    }

    /// `num_row_groups == 0` means no bound on the number of row groups.
    pub fn new(num_row_groups: u32, file_size_threshold: Option<u64>) -> (r: Self)
        ensures
            r == Self::new_spec(num_row_groups, file_size_threshold),
            r.well_formed(),
    {
        match file_size_threshold {
            Option::None => if num_row_groups == 0 {
                FileSizeLimit::Unbounded
            } else {
                FileSizeLimit::RowGroups(num_row_groups)
            },
            Option::Some(size) => if num_row_groups == 0 {
                FileSizeLimit::Size(size)
            } else {
                FileSizeLimit::Both { row_groups: num_row_groups, size }
            },
        }
    }

    /// `true` if the output may be split across several files.
    pub fn output_is_splitted(&self) -> (r: bool)
        ensures
            r == !(self is Unbounded),
    {
        match self {
            FileSizeLimit::Unbounded => false,
            _ => true,
        }
    }

    /// Asked before a row group is written: `num_batch` counts the row groups written so far
    /// and `current_file_size` is the size of the current file in bytes.
    pub fn should_start_new_file(&self, num_batch: u32, current_file_size: u64) -> (r: bool)
        requires
            self.well_formed(),
        ensures
            r == self.starts_new_file(num_batch, current_file_size),
    {
        match self {
            FileSizeLimit::Unbounded => false,
            FileSizeLimit::RowGroups(row_groups) => num_batch != 0 && num_batch % *row_groups
                == 0,
            FileSizeLimit::Size(size) => current_file_size >= *size,
            FileSizeLimit::Both { row_groups, size } => (num_batch != 0 && num_batch % *row_groups
                == 0) || current_file_size >= *size,
        }
    }
}

/// A single row does not fit into the memory budget of a batch.
#[derive(Debug, Clone, Copy, PartialEq, Eq, Structural)]
pub struct InsufficientMemoryBudget {
    /// The memory budget of one batch in bytes.
    pub memory_limit: u64,
    /// Bytes the transfer buffers need for one row.
    pub bytes_per_row: usize,
}

impl InsufficientMemoryBudget {
    pub open spec fn message_spec(&self) -> Seq<char> {
        "Memory required to hold a single row is larger than the limit. Memory Limit: "@
            + decimal_digits(self.memory_limit as nat) + " bytes, Memory per row: "@
            + decimal_digits(self.bytes_per_row as nat) + MEMORY_ADVICE@
    }

    /// Describes the error to an operator: the budget, the cost of one row, and how to
    /// make a row fit.
    pub fn message(&self) -> (r: String)
        ensures
            r@ == self.message_spec(),
    {
        let mut text = String::from_str(
            "Memory required to hold a single row is larger than the limit. Memory Limit: ",
        );
        push_decimal(&mut text, self.memory_limit);
        text.append(" bytes, Memory per row: ");
        push_decimal(&mut text, self.bytes_per_row as u64);
        text.append(MEMORY_ADVICE);
        text
    }
}

/// How to make a row fit into the memory budget of a batch.
pub const MEMORY_ADVICE: &'static str = " bytes.\nYou can use either '--batch-size-row' or '--batch-size-memory' to raise the limit. You may also try more verbose output to see which columns require so much memory and consider casting them into something smaller. You could also apply an upper size limit to expected values on variadic columns using `--column-length-limit`.";

/// Limits batches by number of rows, by the memory their buffers take, or both.
#[derive(Debug, Clone, Copy, PartialEq, Eq, Structural)]
pub enum BatchSizeLimit {
    Rows(usize),
    Bytes(u64),
    Both { rows: usize, memory: u64 },
}

/// Rows that fit into `memory` bytes, or the error if not even one does.
pub open spec fn rows_in_budget(memory: u64, bytes_per_row: usize) -> Result<
    usize,
    InsufficientMemoryBudget,
> {
    if memory as int / bytes_per_row as int == 0 {
        Err(InsufficientMemoryBudget { memory_limit: memory, bytes_per_row })
    } else {
        Ok((memory as int / bytes_per_row as int) as usize)
    }
}

fn rows_in_budget_exec(memory: u64, bytes_per_row: usize) -> (r: Result<
    usize,
    InsufficientMemoryBudget,
>)
    requires
        bytes_per_row > 0,
        memory as int <= usize::MAX as int,
    ensures
        r == rows_in_budget(memory, bytes_per_row),
{
    let rows: u64 = memory / (bytes_per_row as u64);
    if rows == 0 {
        Err(InsufficientMemoryBudget { memory_limit: memory, bytes_per_row })
    } else {
        Ok(rows as usize)
    }
}

impl BatchSizeLimit {
    pub open spec fn new_spec(num_rows_limit: Option<usize>, memory_limit: Option<u64>) -> Self {
        match (num_rows_limit, memory_limit) {
            (Some(rows), None) => BatchSizeLimit::Rows(rows),
            (None, Some(memory)) => BatchSizeLimit::Bytes(memory),
            (None, None) => BatchSizeLimit::Both {
                rows: DEFAULT_BATCH_SIZE_ROWS,
                memory: default_batch_size_bytes_spec(),
            },
            (Some(rows), Some(memory)) => BatchSizeLimit::Both { rows, memory },
        }
    }

    /// The memory budget, if any.
    pub open spec fn memory(&self) -> Option<u64> {
        match self {
            BatchSizeLimit::Rows(_) => None,
            BatchSizeLimit::Bytes(memory) => Some(*memory),
            BatchSizeLimit::Both { memory, .. } => Some(*memory),
        }
    }

    /// A memory budget can be applied to a row of `bytes_per_row` bytes: rows have a size
    /// and the budget can be counted in `usize`.
    pub open spec fn can_apply(&self, bytes_per_row: usize) -> bool {
        match self.memory() {
            Some(memory) => bytes_per_row > 0 && memory as int <= usize::MAX as int,
            None => true,
        }
    }

    pub open spec fn batch_rows(&self, bytes_per_row: usize) -> Result<
        usize,
        InsufficientMemoryBudget,
    > {
        match self {
            BatchSizeLimit::Rows(rows) => Ok(*rows),
            BatchSizeLimit::Bytes(memory) => rows_in_budget(*memory, bytes_per_row),
            BatchSizeLimit::Both { rows, memory } => match rows_in_budget(
                *memory,
                bytes_per_row,
            ) {
                Ok(limit_rows) => Ok(
                    if limit_rows <= *rows {
                        limit_rows
                    } else {
                        *rows
                    },
                ),
                Err(e) => Err(e),
            },
        }
    }

    /// Without either limit the defaults apply together.
    pub fn new(num_rows_limit: Option<usize>, memory_limit: Option<u64>) -> (r: Self)
        ensures
            r == Self::new_spec(num_rows_limit, memory_limit),
    {
        match (num_rows_limit, memory_limit) {
            (Some(rows), None) => BatchSizeLimit::Rows(rows),
            (None, Some(memory)) => BatchSizeLimit::Bytes(memory),
            (None, None) => BatchSizeLimit::Both {
                rows: DEFAULT_BATCH_SIZE_ROWS,
                memory: default_batch_size_bytes(),
            },
            (Some(rows), Some(memory)) => BatchSizeLimit::Both { rows, memory },
        }
    }

    /// Number of rows in one batch, given the bytes the transfer buffers need per row.
    pub fn batch_size_in_rows(&self, total_mem_usage_per_row: usize) -> (r: Result<
        usize,
        InsufficientMemoryBudget,
    >)
        requires
            self.can_apply(total_mem_usage_per_row),
        ensures
            r == self.batch_rows(total_mem_usage_per_row),
    {
        match self {
            BatchSizeLimit::Rows(rows) => Ok(*rows),
            BatchSizeLimit::Bytes(memory) => rows_in_budget_exec(*memory, total_mem_usage_per_row),
            BatchSizeLimit::Both { rows, memory } => {
                match rows_in_budget_exec(*memory, total_mem_usage_per_row) {
                    Ok(limit_rows) => Ok(
                        if limit_rows <= *rows {
                            limit_rows
                        } else {
                            *rows
                        },
                    ),
                    Err(e) => Err(e),
                }
            },
        }
    }
}

/// Bytes written by a sequence of row groups.
pub open spec fn total_bytes(sizes: Seq<u64>) -> int
    decreases sizes.len(),
{
    if sizes.len() == 0 {
        0
    } else {
        total_bytes(sizes.drop_last()) + sizes.last()
    }
}

/// A row count limit alone is the batch size; a memory limit alone gives the rows that fit
/// into it, or the error if not even one row does; both give the smaller of the two.
pub proof fn lemma_batch_size_limits(
    rows: Option<usize>,
    memory: Option<u64>,
    bytes_per_row: usize,
)
    requires
        BatchSizeLimit::new_spec(rows, memory).can_apply(bytes_per_row),
    ensures
        ({
            let r = BatchSizeLimit::new_spec(rows, memory).batch_rows(bytes_per_row);
            match (rows, memory) {
                (Some(n), None) => r == Ok::<usize, InsufficientMemoryBudget>(n),
                (None, Some(m)) => if m as int / bytes_per_row as int >= 1 {
                    r == Ok::<usize, InsufficientMemoryBudget>(
                        (m as int / bytes_per_row as int) as usize,
                    )
                } else {
                    r == Err::<usize, InsufficientMemoryBudget>(
                        InsufficientMemoryBudget { memory_limit: m, bytes_per_row },
                    )
                },
                (Some(n), Some(m)) => m as int / bytes_per_row as int >= 1 ==> r == Ok::<
                    usize,
                    InsufficientMemoryBudget,
                >(vstd::math::min(n as int, m as int / bytes_per_row as int) as usize),
                (None, None) => true,
            }
        }),
{
}

/// With a bound of `row_groups` row groups per file, a new file starts exactly when the
/// number of row groups already written is a positive multiple of the bound.
pub proof fn lemma_row_group_bound(row_groups: u32, num_batch: u32, current_file_size: u64)
    requires
        row_groups > 0,
    ensures
        FileSizeLimit::new_spec(row_groups, None).starts_new_file(num_batch, current_file_size)
            <==> (num_batch > 0 && num_batch % row_groups == 0),
{
}

/// With a size threshold, a new file starts exactly when the current file has reached it.
pub proof fn lemma_size_threshold(threshold: u64, num_batch: u32, current_file_size: u64)
    ensures
        FileSizeLimit::new_spec(0, Some(threshold)).starts_new_file(num_batch, current_file_size)
            <==> current_file_size >= threshold,
{
}

/// The threshold is checked before each row group is written. So a file whose row groups
/// were each written below the threshold exceeds it by less than its last row group.
pub proof fn lemma_size_threshold_overshoot(threshold: u64, sizes: Seq<u64>)
    requires
        sizes.len() > 0,
        forall|i: int| 0 <= i < sizes.len() ==> total_bytes(#[trigger] sizes.take(i)) < threshold,
    ensures
        total_bytes(sizes) < threshold + sizes.last(),
{
    let k = sizes.len() - 1;
    assert(sizes.take(k) =~= sizes.drop_last());
    assert(total_bytes(sizes.take(k)) < threshold);
}

} // verus!
