use vstd::prelude::*;

verus! {

use crate::memory::Region;
use crate::memory::WORD_BYTES;
use crate::memtest::ErrorCause;

#[verifier::external_type_specification]
#[verifier::external_body]
pub struct ExLockGuard(region::LockGuard);

#[verifier::external_type_specification]
#[verifier::external_body]
pub struct ExRegionError(region::Error);

/// Why page-locking the region did not succeed.
#[derive(Clone, Copy, Debug, PartialEq, Eq, Structural)]
pub enum LockError {
    /// The memory-lock quota was exceeded and the mode forbids shrinking.
    QuotaExceeded,
    /// The operating system refused for a reason other than the quota.
    OsFailure,
    /// Shrinking the region for locking reached zero words.
    DecrementedToZero,
}

impl LockError {
    /// The cause this lock error contributes to a run error.
    pub open spec fn spec_cause(&self) -> ErrorCause {
        match self {
            LockError::QuotaExceeded => ErrorCause::LockQuotaExceeded,
            LockError::OsFailure => ErrorCause::LockOsFailure,
            LockError::DecrementedToZero => ErrorCause::LockDecrementedToZero,
        }
    }

    pub fn cause(&self) -> (c: ErrorCause)
        ensures
            c == self.spec_cause(),
    {
        match self {
            LockError::QuotaExceeded => ErrorCause::LockQuotaExceeded,
            LockError::OsFailure => ErrorCause::LockOsFailure,
            LockError::DecrementedToZero => ErrorCause::LockDecrementedToZero,
        }
    }
}

/// Relies on `region::lock`: it page-locks `[ptr, ptr + size_bytes)` into
/// RAM, rounding outward to page boundaries, and returns a guard that
/// unlocks the range when dropped, or the error the operating system gave.
#[verifier::external_body]
fn os_lock(words: &Vec<usize>, size_bytes: usize) -> (r: Result<region::LockGuard, region::Error>)
    requires
        size_bytes <= words@.len() * WORD_BYTES,
{
    region::lock(words.as_ptr(), size_bytes)
}

/// Relies on `region::Error`: its `SystemCall` variant carries the OS error
/// of the failed `mlock`, whose kind is `OutOfMemory` exactly when the call
/// failed with `ENOMEM`, the memory-lock quota error.
#[verifier::external_body]
fn lock_error_is_quota(e: &region::Error) -> bool {
    match e {
        region::Error::SystemCall(io) => io.kind() == std::io::ErrorKind::OutOfMemory,
        _ => false,
    }
}

/// Relies on `rustix::param::page_size`: the system page size in bytes.
#[verifier::external_body]
fn os_page_size() -> usize {
    rustix::param::page_size()
}

/// Relies on `rustix::process::getrlimit`: the soft `RLIMIT_MEMLOCK` limit
/// in bytes; `None` means the limit is unbounded.
#[verifier::external_body]
fn memlock_limit_bytes() -> Option<u64> {
    rustix::process::getrlimit(rustix::process::Resource::Memlock).current
}

/// The next smaller prefix length to try after a quota failure on `len`
/// words: at least one page's worth of words less, and clamped to the
/// memory-lock limit. `None` when shrinking leaves no words, which ends the
/// retry loop.
pub fn shrink_step(len: usize, usize_per_page: usize, limit_words: u64) -> (r: Option<usize>)
    requires
        usize_per_page >= 1,
    ensures
        r matches Some(new_len) ==> 1 <= new_len < len && new_len as int == (if (
        limit_words as int) < len - usize_per_page {
            limit_words as int
        } else {
            len - usize_per_page
        }),
        r is None <==> (len <= usize_per_page || limit_words == 0),
{
    let dropped = match len.checked_sub(usize_per_page) {
        Option::None => {
            return Option::None;
        },
        Option::Some(d) => d,
    };
    let new_len = if limit_words < (dropped as u64) {
        limit_words as usize
    } else {
        dropped
    };
    if new_len == 0 {
        Option::None
    } else {
        Option::Some(new_len)
    }
}

/// Page-lock the first words of the region, shrinking the locked prefix on
/// quota failures when `allow_mem_resize` is set: the first shrink clamps
/// to the memory-lock limit and at least one page less, later shrinks drop
/// one more page each. The result carries the locked word count and the
/// guard that releases the lock when dropped. A prefix whose byte size does
/// not fit in `usize` cannot be asked of the operating system at all, and
/// counts as an OS refusal.
pub fn memory_resize_and_lock(region: &Region, allow_mem_resize: bool) -> (r: Result<
    (usize, region::LockGuard),
    LockError,
>)
    requires
        region.wf(),
        region.spec_len() >= 1,
    ensures
        r matches Ok((len, _)) ==> 1 <= len <= region.spec_len(),
        r matches Err(e) ==> (e == LockError::QuotaExceeded ==> !allow_mem_resize),
        r == Err::<(usize, region::LockGuard), LockError>(LockError::DecrementedToZero)
            ==> allow_mem_resize,
        !allow_mem_resize ==> (r matches Ok((len, _)) ==> len == region.spec_len()),
{
    let page_size = os_page_size();
    let words_per_page = page_size / WORD_BYTES;
    let usize_per_page = if words_per_page == 0 {
        1
    } else {
        words_per_page
    };

    let mut len: usize = region.len();
    loop
        invariant
            region.wf(),
            1 <= len <= region.spec_len(),
            usize_per_page >= 1,
            allow_mem_resize || len == region.spec_len(),
        decreases len,
    {
        let size_bytes = match len.checked_mul(WORD_BYTES) {
            Option::None => {
                return Err(LockError::OsFailure);
            },
            Option::Some(b) => b,
        };
        let e = match os_lock(region.words_ref(), size_bytes) {
            Ok(guard) => {
                return Ok((len, guard));
            },
            Err(e) => e,
        };

        if !lock_error_is_quota(&e) {
            return Err(LockError::OsFailure);
        }
        if !allow_mem_resize {
            return Err(LockError::QuotaExceeded);
        }

        // Clamp to the memory-lock system limit; either way drop at least
        // one page's worth of words.
        let limit_words: u64 = match memlock_limit_bytes() {
            Option::None => u64::MAX,
            Option::Some(b) => b / (WORD_BYTES as u64),
        };
        len = match shrink_step(len, usize_per_page, limit_words) {
            Option::None => {
                return Err(LockError::DecrementedToZero);
            },
            Option::Some(new_len) => new_len,
        };
    }
}

} // verus!
