//! The tree builder: plans the run of randomly named subdirectories and
//! randomly sized files whose sizes accumulate to the target, and renders
//! the progress percentage. Writing the planned files to disk happens
//! outside the library; every decision is made here.

use vstd::prelude::*;

use crate::errors::TreeError;
use crate::random::random_in_range;
use crate::text::{dec_str, digit_char, digit_char_exec, push_char, to_decimal};

verus! {

/// The smallest target size that is accepted, in bytes.
pub const MIN_TARGET: u64 = 100;

/// The smallest name discriminator.
pub const DISC_MIN: u64 = 1;

/// The largest name discriminator.
pub const DISC_MAX: u64 = 1000;

/// The smallest file size that is drawn, in mebibytes.
pub const MIN_FILE_MB: u64 = 50;

/// The largest file size that is drawn, in mebibytes.
pub const MAX_FILE_MB: u64 = 200;

/// Bytes in a mebibyte.
pub const BYTES_PER_MB: u64 = 1024 * 1024;

/// The name of the subdirectory with discriminator `d`.
pub open spec fn dir_name_spec(d: int) -> Seq<char> {
    "dir_"@ + dec_str(d)
}

/// The name of the file with discriminator `d`.
pub open spec fn file_name_spec(d: int) -> Seq<char> {
    "file_"@ + dec_str(d) + ".txt"@
}

/// One planned file: the discriminators that name its subdirectory and
/// itself, and its size. A repeated discriminator between iterations is
/// allowed: directory creation is idempotent and an existing file of the
/// same name is overwritten.
#[derive(Clone, Copy, Debug, PartialEq, Eq, Structural)]
pub struct FilePlan {
    /// Names the subdirectory, drawn from `[DISC_MIN, DISC_MAX]`.
    pub dir_disc: u64,
    /// Names the file, drawn from `[DISC_MIN, DISC_MAX]`.
    pub file_disc: u64,
    /// The file size in mebibytes, drawn from `[MIN_FILE_MB, MAX_FILE_MB]`.
    pub size_mb: u64,
}

impl FilePlan {
    /// Every draw lies in its range.
    pub open spec fn wf(self) -> bool {
        &&& DISC_MIN <= self.dir_disc <= DISC_MAX
        &&& DISC_MIN <= self.file_disc <= DISC_MAX
        &&& MIN_FILE_MB <= self.size_mb <= MAX_FILE_MB
    }

    /// The planned file size in bytes.
    pub open spec fn bytes(self) -> int {
        self.size_mb * BYTES_PER_MB
    }

    /// The planned file size in bytes.
    pub fn size_bytes(&self) -> (r: u64)
        requires
            self.wf(),
        ensures
            r == self.bytes(),
    {
        self.size_mb * BYTES_PER_MB
    }

    /// The name of the planned subdirectory.
    pub fn dir_name(&self) -> (r: String)
        ensures
            r@ == dir_name_spec(self.dir_disc as int),
    {
        let mut s = String::from_str("dir_");
        let num = to_decimal(self.dir_disc as u128);
        s.append(num.as_str());
        s
    }

    /// The name of the planned file.
    pub fn file_name(&self) -> (r: String)
        ensures
            r@ == file_name_spec(self.file_disc as int),
    {
        let mut s = String::from_str("file_");
        let num = to_decimal(self.file_disc as u128);
        s.append(num.as_str());
        s.append(".txt");
        s
    }
}

/// The total planned size of a run, in bytes.
pub open spec fn sum_bytes(s: Seq<FilePlan>) -> int
    decreases s.len(),
{
    if s.len() == 0 {
        0
    } else {
        sum_bytes(s.drop_last()) + s.last().bytes()
    }
}

/// Appending one plan adds exactly its size to the total.
proof fn lemma_sum_bytes_push(s: Seq<FilePlan>, p: FilePlan)
    ensures
        sum_bytes(s.push(p)) == sum_bytes(s) + p.bytes(),
{
    assert(s.push(p).drop_last() =~= s);
    assert(s.push(p).last() == p);
}

/// Plans a whole run for `target` bytes. A target below the minimum is
/// refused before anything is drawn. Otherwise files are planned until
/// their sizes accumulate to the target: every draw is in range, the
/// total meets or exceeds the target, and every proper prefix of the
/// plan falls short of it — the final file overshoots rather than being
/// truncated to fit.
pub fn plan_files(target: u64) -> (r: Result<Vec<FilePlan>, TreeError>)
    ensures
        r is Err <==> target < MIN_TARGET,
        r is Err ==> r == Err::<Vec<FilePlan>, TreeError>(TreeError::SizeTooSmall),
        r matches Ok(plans) ==> {
            &&& forall|i: int| 0 <= i < plans@.len() ==> (#[trigger] plans@[i]).wf()
            &&& sum_bytes(plans@) >= target
            &&& forall|i: int| 0 <= i < plans@.len() ==> sum_bytes(#[trigger] plans@.take(i))
                < target
            &&& plans@.len() >= 1
        },
{
    if target < MIN_TARGET {
        return Err(TreeError::SizeTooSmall);
    }
    let mut plans: Vec<FilePlan> = Vec::new();
    let mut acc: u128 = 0;
    while acc < target as u128
        invariant
            target >= MIN_TARGET,
            acc == sum_bytes(plans@),
            forall|i: int| 0 <= i < plans@.len() ==> (#[trigger] plans@[i]).wf(),
            forall|i: int| 0 <= i < plans@.len() ==> sum_bytes(#[trigger] plans@.take(i)) < target,
        decreases (if acc < target as u128 {
            target as int - acc as int
        } else {
            0int
        }),
    {
        let dir_disc = random_in_range(DISC_MIN, DISC_MAX);
        let size_mb = random_in_range(MIN_FILE_MB, MAX_FILE_MB);
        let file_disc = random_in_range(DISC_MIN, DISC_MAX);
        let plan = FilePlan { dir_disc, file_disc, size_mb };
        let size = plan.size_bytes();
        proof {
            lemma_sum_bytes_push(plans@, plan);
            assert forall|i: int| 0 <= i < plans@.push(plan).len() implies sum_bytes(
                #[trigger] plans@.push(plan).take(i),
            ) < target by {
                assert(plans@.push(plan).take(i) =~= plans@.take(i));
                if i < plans@.len() {
                } else {
                    assert(plans@.take(i) =~= plans@);
                }
            }
        }
        plans.push(plan);
        acc = acc + size as u128;
    }
    proof {
        if plans@.len() == 0 {
            assert(sum_bytes(plans@) == 0);
        }
    }
    Ok(plans)
}

/// The accumulated share of the target in hundredths of a percent,
/// truncated: the final value of a run is at least 10000 (100.00%).
pub open spec fn percent_hundredths(acc: int, target: int) -> int {
    acc * 10000 / target
}

/// The progress percentage rendered with two decimal places.
pub open spec fn percent_display(acc: int, target: int) -> Seq<char> {
    let p = percent_hundredths(acc, target);
    dec_str(p / 100) + seq!['.'] + seq![digit_char(p / 10 % 10), digit_char(p % 10)]
}

/// Once the accumulated size meets or exceeds the target — as it does
/// when a run ends, by the overshoot policy — the rendered percentage is
/// at least one hundred percent (10000 hundredths, i.e. `100.00`).
pub proof fn lemma_final_percent_full(acc: int, target: int)
    requires
        1 <= target <= acc,
    ensures
        percent_hundredths(acc, target) >= 10000,
{
    assert(acc * 10000 / target >= 10000) by (nonlinear_arith)
        requires
            1 <= target <= acc,
    ;
}

/// Renders the progress after `accumulated` of `target` bytes, as a
/// percentage with two decimal places.
pub fn progress_percent(accumulated: u128, target: u64) -> (r: String)
    requires
        target >= 1,
        accumulated <= u128::MAX / 10000,
    ensures
        r@ == percent_display(accumulated as int, target as int),
{
    let p: u128 = (accumulated * 10000) / (target as u128);
    let mut s = to_decimal(p / 100);
    push_char(&mut s, '.');
    push_char(&mut s, digit_char_exec((p / 10 % 10) as u8));
    push_char(&mut s, digit_char_exec((p % 10) as u8));
    proof {
        assert(s@ =~= percent_display(accumulated as int, target as int));
    }
    s
}

} // verus!
