use vstd::prelude::*;

verus! {

/// Least time, in milliseconds, between two progress snapshots of a download.
pub const SAMPLE_INTERVAL_MS: u64 = 100;

/// A non-negative rational number `num / den`, with `den > 0`.
#[derive(Clone, Copy, Debug, PartialEq, Eq, Structural)]
pub struct Ratio {
    pub num: u128,
    pub den: u128,
}

impl Ratio {
    pub open spec fn wf(self) -> bool {
        self.den > 0
    }

    /// Zero, written with denominator one.
    pub open spec fn zero() -> Ratio {
        Ratio { num: 0, den: 1 }
    }
}

/// How far a download has come, as a share of its declared size.
#[derive(Clone, Copy, Debug, PartialEq, Eq, Structural)]
pub enum Percentage {
    /// The size is not known. On the wire this is the sentinel -1.
    Unknown,
    /// `100 * downloaded / total`, in per cent.
    Known(Ratio),
}

/// One progress snapshot of a download.
#[derive(Clone, Copy, Debug, PartialEq, Eq, Structural)]
pub struct DownloadProgress {
    /// Bytes received so far.
    pub downloaded: u64,
    /// Declared size of the body, when the server gave one.
    pub total: Option<u64>,
    pub percentage: Percentage,
    /// Mean transfer rate since the start, in bytes per second.
    pub speed: Ratio,
    /// Seconds still to go at the mean rate, when that is defined.
    pub eta: Option<Ratio>,
}

/// Mean rate in bytes per second of `downloaded` bytes in `elapsed_ms`
/// milliseconds; zero when no time has passed.
pub open spec fn spec_speed(downloaded: u64, elapsed_ms: u64) -> Ratio {
    if elapsed_ms == 0 {
        Ratio::zero()
    } else {
        Ratio { num: (downloaded * 1000) as u128, den: elapsed_ms as u128 }
    }
}

/// `100 * downloaded / total`; a body of declared size zero counts as complete.
pub open spec fn spec_percentage(downloaded: u64, total: Option<u64>) -> Percentage {
    match total {
        None => Percentage::Unknown,
        Some(t) => if t == 0 {
            Percentage::Known(Ratio { num: 100, den: 1 })
        } else {
            Percentage::Known(Ratio { num: (100 * downloaded) as u128, den: t as u128 })
        },
    }
}

/// Seconds left, `(total - downloaded) / speed`: defined only while the rate
/// is positive and bytes remain.
pub open spec fn spec_eta(downloaded: u64, total: Option<u64>, elapsed_ms: u64) -> Option<Ratio> {
    match total {
        Some(t) if elapsed_ms > 0 && downloaded > 0 && downloaded < t => Some(
            Ratio {
                num: ((t - downloaded) * elapsed_ms) as u128,
                den: (downloaded * 1000) as u128,
            },
        ),
        _ => None,
    }
}

pub open spec fn spec_snapshot(downloaded: u64, total: Option<u64>, elapsed_ms: u64) -> DownloadProgress {
    DownloadProgress {
        downloaded,
        total,
        percentage: spec_percentage(downloaded, total),
        speed: spec_speed(downloaded, elapsed_ms),
        eta: spec_eta(downloaded, total, elapsed_ms),
    }
}

/// Whether a new snapshot is due at `now_ms`, the last one having been taken
/// at `last_ms`. A clock that went backwards takes none.
pub open spec fn spec_sample_due(last_ms: u64, now_ms: u64) -> bool {
    now_ms >= last_ms + SAMPLE_INTERVAL_MS
}

pub fn speed(downloaded: u64, elapsed_ms: u64) -> (r: Ratio)
    ensures
        r == spec_speed(downloaded, elapsed_ms),
        r.wf(),
{
    if elapsed_ms == 0 {
        Ratio { num: 0, den: 1 }
    } else {
        Ratio { num: downloaded as u128 * 1000, den: elapsed_ms as u128 }
    }
}

pub fn percentage(downloaded: u64, total: Option<u64>) -> (r: Percentage)
    ensures
        r == spec_percentage(downloaded, total),
        r matches Percentage::Known(q) ==> q.wf(),
{
    match total {
        None => Percentage::Unknown,
        Some(t) => if t == 0 {
            Percentage::Known(Ratio { num: 100, den: 1 })
        } else {
            Percentage::Known(Ratio { num: 100 * downloaded as u128, den: t as u128 })
        },
    }
}

pub fn eta(downloaded: u64, total: Option<u64>, elapsed_ms: u64) -> (r: Option<Ratio>)
    ensures
        r == spec_eta(downloaded, total, elapsed_ms),
        r matches Some(q) ==> q.wf(),
{
    match total {
        Some(t) => {
            if elapsed_ms > 0 && downloaded > 0 && downloaded < t {
                let left = (t - downloaded) as u128;
                assert(left * (elapsed_ms as u128) <= u64::MAX as u128 * u64::MAX as u128)
                    by (nonlinear_arith)
                    requires
                        left <= u64::MAX,
                        elapsed_ms <= u64::MAX,
                ;
                Some(
                    Ratio {
                        num: left * elapsed_ms as u128,
                        den: downloaded as u128 * 1000,
                    },
                )
            } else {
                None
            }
        },
        None => None,
    }
}

/// The progress snapshot of a download that has received `downloaded` bytes
/// of a body of declared size `total`, `elapsed_ms` milliseconds after it
/// started.
pub fn snapshot(downloaded: u64, total: Option<u64>, elapsed_ms: u64) -> (r: DownloadProgress)
    ensures
        r == spec_snapshot(downloaded, total, elapsed_ms),
{
    DownloadProgress {
        downloaded,
        total,
        percentage: percentage(downloaded, total),
        speed: speed(downloaded, elapsed_ms),
        eta: eta(downloaded, total, elapsed_ms),
    }
}

/// Whether a snapshot is due: at least `SAMPLE_INTERVAL_MS` milliseconds have
/// passed since the last one.
pub fn sample_due(last_ms: u64, now_ms: u64) -> (r: bool)
    ensures
        r == spec_sample_due(last_ms, now_ms),
{
    now_ms >= last_ms && now_ms - last_ms >= SAMPLE_INTERVAL_MS
}

/// With a declared size that the download has not passed, the percentage lies
/// between 0 and 100; it is the unknown sentinel exactly when no size was
/// declared.
pub proof fn lemma_percentage_in_range(downloaded: u64, total: Option<u64>, elapsed_ms: u64)
    ensures
        (spec_snapshot(downloaded, total, elapsed_ms).percentage is Unknown) <==> (total is None),
        total matches Some(t) && downloaded <= t ==> {
            let p = spec_snapshot(downloaded, total, elapsed_ms).percentage;
            &&& p is Known
            &&& p->Known_0.wf()
            &&& 0 <= p->Known_0.num <= 100 * p->Known_0.den
        },
{
}

/// The remaining time is absent when the rate is zero or nothing remains;
/// otherwise it is exactly the remaining bytes divided by the rate.
pub proof fn lemma_eta_is_remaining_over_speed(downloaded: u64, total: u64, elapsed_ms: u64)
    ensures
        ({
            let p = spec_snapshot(downloaded, Some(total), elapsed_ms);
            &&& (p.speed.num == 0 || downloaded >= total) ==> p.eta is None
            &&& (p.speed.num > 0 && downloaded < total) ==> {
                &&& p.eta is Some
                &&& p.eta->0.wf()
                &&& p.eta->0.num * p.speed.num == (total - downloaded) * p.eta->0.den
                    * p.speed.den
            }
        }),
{
    let p = spec_snapshot(downloaded, Some(total), elapsed_ms);
    if p.speed.num > 0 && downloaded < total {
        let left = (total - downloaded) as int;
        let d = downloaded as int;
        let e = elapsed_ms as int;
        assert(elapsed_ms > 0);
        assert(p.speed.num == d * 1000);
        assert(downloaded > 0);
        assert(0 <= left * e <= u64::MAX as int * u64::MAX as int) by (nonlinear_arith)
            requires
                0 <= left <= u64::MAX,
                0 <= e <= u64::MAX,
        ;
        assert(p.eta->0.num == left * e);
        assert((left * e) * (d * 1000) == left * (d * 1000) * e) by (nonlinear_arith);
    }
}

} // verus!
