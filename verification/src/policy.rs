use vstd::prelude::*;

use crate::error_id::DeviceError;
use crate::measure::spec_meas_mode_byte;
use crate::measure::MeasureDriveMode;
use crate::measure::MeasureInterrupt;
use crate::measure::MeasureThresh;
use crate::registers::RegisterAddress;
use crate::sensor::BusOp;
use crate::sensor::Ccs811;
use crate::status::ERROR;
use crate::Ccs811Result;

verus! {

/// Number of sampling rounds the resume-or-restart policy performs.
pub const SAMPLE_ROUNDS: u8 = 5;

/// How many rounds must look never-started before the policy forces a
/// cold restart.
pub const NOT_STARTED_THRESHOLD: u8 = 4;

/// The ghost count of elapsed pacing intervals.  It has no runtime
/// content; an unverified implementor gives the member an unreachable
/// body.
pub type PaceCount = int;

/// The pacing capability injected into the sampling loop: lets one
/// measurement interval elapse between rounds.  A synchronous host
/// sleeps the thread; a test injects a no-op or virtual clock.  All
/// that is assumed of it is that each call stands for one elapsed
/// interval, counted by the ghost [`Pacer::paces`].
pub trait Pacer {
    /// Ghost count of the measurement intervals this pacer has let
    /// elapse.
    spec fn paces(&self) -> PaceCount;

    /// Let one measurement interval elapse.
    fn pace(&mut self)
        ensures
            final(self).paces() == old(self).paces() + 1,
    ;
}

/// Whether a status read with the given outcome failed: the transport
/// failed outright, or the byte came back with the error bit set, so
/// its decode fails.
pub open spec fn spec_status_read_failed(outcome: Ccs811Result<u8>) -> bool {
    match outcome {
        Ok(b) => b & ERROR != 0,
        Err(_) => true,
    }
}

/// Whether an error-id read outcome marks a failed round as likely
/// never-started: the byte could be fetched and holds the
/// invalid-register-read cause.
pub open spec fn spec_not_started_outcome(outcome: Ccs811Result<u8>) -> bool {
    outcome matches Ok(b) && b & DeviceError::ReadRegisterInvalid.spec_mask() != 0
}

/// The outcome field of a byte-read operation.
pub open spec fn spec_read_byte_outcome(op: BusOp) -> Ccs811Result<u8> {
    match op {
        BusOp::ReadByte(_, outcome) => outcome,
        _ => arbitrary(),
    }
}

/// The operations of one sampling round, with its classification: a
/// result read whose value is discarded (it only provokes the device),
/// then a status read, and — exactly when that read failed — an
/// error-id read.
pub open spec fn spec_round_trace(t: Seq<BusOp>, failed: bool, not_started: bool) -> bool {
    &&& t.len() >= 2
    &&& (t[0] matches BusOp::ReadBlock(reg0, _) && reg0
        == RegisterAddress::AlgResultData.spec_byte())
    &&& (t[1] matches BusOp::ReadByte(reg1, st) && reg1 == RegisterAddress::Status.spec_byte()
        && failed == spec_status_read_failed(st) && (if failed {
        t.len() == 3 && (t[2] matches BusOp::ReadByte(reg2, eid) && reg2
            == RegisterAddress::ErrorId.spec_byte() && not_started == spec_not_started_outcome(
            eid,
        ))
    } else {
        t.len() == 2 && !not_started
    }))
}

/// `t` is the operations of `n` sampling rounds in order, of which
/// `whole` had a failing status read and `maybe` also looked
/// never-started.
pub open spec fn spec_sampling_trace(t: Seq<BusOp>, n: int, whole: int, maybe: int) -> bool
    decreases n,
{
    if n <= 0 {
        t.len() == 0 && whole == 0 && maybe == 0
    } else {
        exists|prefix: Seq<BusOp>, round: Seq<BusOp>, f: bool, ns: bool|
            #![auto]
            {
                &&& t == prefix + round
                &&& spec_round_trace(round, f, ns)
                &&& spec_sampling_trace(
                    prefix,
                    n - 1,
                    whole - (if f {
                        1int
                    } else {
                        0int
                    }),
                    maybe - (if f && ns {
                        1int
                    } else {
                        0int
                    }),
                )
            }
    }
}

/// Evidence gathered over the sampling rounds of the resume-or-restart
/// policy.
pub struct ErrorSampling {
    /// Rounds observed so far.
    pub rounds: u8,
    /// Rounds whose status read failed, for any reason.
    pub whole_error: u8,
    /// Rounds whose status read failed and whose error-id, when it
    /// could be fetched, held the invalid-register-read cause — the
    /// signature of a device that has never been started.
    pub maybe_not_started_error: u8,
}

impl ErrorSampling {
    /// Counter sanity: a round can raise each counter at most once, and
    /// only a failing round can look never-started.
    pub open spec fn wf(&self) -> bool {
        self.maybe_not_started_error <= self.whole_error <= self.rounds
    }

    pub fn new() -> (s: ErrorSampling)
        ensures
            s.rounds == 0,
            s.whole_error == 0,
            s.maybe_not_started_error == 0,
            s.wf(),
    {
        ErrorSampling { rounds: 0, whole_error: 0, maybe_not_started_error: 0 }
    }

    /// Record one classified sampling round: the round counter always
    /// advances by one, the error counter advances exactly when the
    /// round's status read failed, and the never-started counter
    /// exactly when that failure also looked never-started.
    pub fn record_round(&mut self, status_failed: bool, not_started: bool)
        requires
            old(self).wf(),
            old(self).rounds < 255,
        ensures
            final(self).wf(),
            final(self).rounds == old(self).rounds + 1,
            final(self).whole_error == old(self).whole_error + (if status_failed {
                1int
            } else {
                0int
            }),
            final(self).maybe_not_started_error == old(self).maybe_not_started_error + (
            if status_failed && not_started {
                1int
            } else {
                0int
            }),
    {
        if status_failed {
            self.whole_error = self.whole_error + 1;
            if not_started {
                self.maybe_not_started_error = self.maybe_not_started_error + 1;
            }
        }
        self.rounds = self.rounds + 1;
    }

    /// One sampling round against the device: a result read whose value
    /// is discarded (its purpose is only to provoke a state transition
    /// or error on the device), then a status read; when the status
    /// read fails, the error-id is fetched and tested for the
    /// invalid-register-read cause.  The round's outcome goes into the
    /// counters through [`ErrorSampling::record_round`]; failures are
    /// absorbed there and never abort sampling.
    pub fn observe_round<T: Ccs811>(&mut self, dev: &mut T)
        requires
            old(self).wf(),
            old(self).rounds < 255,
        ensures
            final(self).wf(),
            final(self).rounds == old(self).rounds + 1,
            ({
                let pre = old(dev).bus_ops();
                let post = final(dev).bus_ops();
                let round = post.subrange(pre.len() as int, post.len() as int);
                &&& post.len() > pre.len()
                &&& post.subrange(0, pre.len() as int) == pre
                &&& (exists|f: bool, ns: bool|
                    #![auto]
                    {
                        &&& spec_round_trace(round, f, ns)
                        &&& final(self).whole_error == old(self).whole_error + (if f {
                            1int
                        } else {
                            0int
                        })
                        &&& final(self).maybe_not_started_error == old(
                            self,
                        ).maybe_not_started_error + (if f && ns {
                            1int
                        } else {
                            0int
                        })
                    })
            }),
    {
        let ghost pre = dev.bus_ops();
        let _ = dev.result();
        let ghost mid1 = dev.bus_ops();
        let status_res = dev.status();
        let ghost mid2 = dev.bus_ops();
        let status_failed = status_res.is_err();
        let mut not_started = false;
        if status_failed {
            match dev.error_id() {
                Ok(id) => {
                    not_started = id.has_error(DeviceError::ReadRegisterInvalid);
                },
                Err(_) => {},
            }
        }
        proof {
            let post = dev.bus_ops();
            let round = post.subrange(pre.len() as int, post.len() as int);
            assert(post.subrange(0, pre.len() as int) =~= pre);
            assert(round[0] == post[pre.len() as int]);
            assert(post[pre.len() as int] == mid1[pre.len() as int]);
            assert(mid1[pre.len() as int] == mid1.last());
            assert(round[1] == post[pre.len() as int + 1]);
            assert(post[pre.len() as int + 1] == mid2[pre.len() as int + 1]);
            assert(mid2[pre.len() as int + 1] == mid2.last());
            let st = spec_read_byte_outcome(mid2.last());
            assert(status_failed == spec_status_read_failed(st));
            if status_failed {
                assert(post.len() == pre.len() + 3);
                assert(round[2] == post[pre.len() as int + 2]);
                assert(post[pre.len() as int + 2] == post.last());
                let eid = spec_read_byte_outcome(post.last());
                assert(not_started == spec_not_started_outcome(eid));
                assert(spec_round_trace(round, status_failed, not_started));
            } else {
                assert(post.len() == pre.len() + 2);
                assert(spec_round_trace(round, status_failed, not_started));
            }
        }
        self.record_round(status_failed, not_started);
    }

    /// The policy's decision rule: restart when every round failed or
    /// when at least the threshold number of rounds looked
    /// never-started.
    pub open spec fn spec_should_restart(&self) -> bool {
        self.whole_error == SAMPLE_ROUNDS || self.maybe_not_started_error >= NOT_STARTED_THRESHOLD
    }

    /// The policy's decision rule, as executable code.
    pub fn should_restart(&self) -> (r: bool)
        ensures
            r == self.spec_should_restart(),
    {
        self.whole_error == SAMPLE_ROUNDS || self.maybe_not_started_error
            >= NOT_STARTED_THRESHOLD
    }
}

/// Resume or restart a device whose prior state is unknown.  Performs
/// exactly [`SAMPLE_ROUNDS`] sampling rounds, pacing one measurement
/// interval after each; afterwards issues `start` with the given
/// configuration exactly when every round failed or at least
/// [`NOT_STARTED_THRESHOLD`] rounds looked never-started, returning
/// that call's own result, and otherwise leaves the device untouched
/// and succeeds — "resume" is declining to act.  Sampling-round
/// failures are absorbed into the counters and never surface.
pub fn resume_or_restart<T: Ccs811, P: Pacer>(
    dev: &mut T,
    pacer: &mut P,
    mode: MeasureDriveMode,
    interrupt: MeasureInterrupt,
    thresh: MeasureThresh,
) -> (r: Ccs811Result<()>)
    ensures
        final(pacer).paces() == old(pacer).paces() + SAMPLE_ROUNDS as int,
        ({
            let pre = old(dev).bus_ops();
            let post = final(dev).bus_ops();
            let trigger_reg = RegisterAddress::AppStart.spec_byte();
            let mode_reg = RegisterAddress::MeasMode.spec_byte();
            let mode_byte = spec_meas_mode_byte(mode, interrupt, thresh);
            exists|t: Seq<BusOp>, whole: int, maybe: int|
                #![auto]
                {
                    &&& spec_sampling_trace(t, SAMPLE_ROUNDS as int, whole, maybe)
                    &&& (if whole == SAMPLE_ROUNDS || maybe >= NOT_STARTED_THRESHOLD {
                        &&& (r is Ok ==> post == pre + t + seq![
                            BusOp::BlankWrite(trigger_reg, Ok(())),
                            BusOp::WriteByte(mode_reg, mode_byte, Ok(())),
                        ])
                        &&& (r matches Err(e) ==> {
                            ||| post == pre + t + seq![BusOp::BlankWrite(trigger_reg, Err(e))]
                            ||| post == pre + t + seq![
                                BusOp::BlankWrite(trigger_reg, Ok(())),
                                BusOp::WriteByte(mode_reg, mode_byte, Err(e)),
                            ]
                        })
                    } else {
                        post == pre + t && r is Ok
                    })
                }
        }),
{
    let ghost orig = dev.bus_ops();
    let mut sampling = ErrorSampling::new();
    proof {
        assert(orig + Seq::<BusOp>::empty() =~= orig);
        assert(spec_sampling_trace(Seq::<BusOp>::empty(), 0, 0, 0));
    }
    let ghost orig_paces = pacer.paces();
    while sampling.rounds < SAMPLE_ROUNDS
        invariant
            sampling.wf(),
            sampling.rounds <= SAMPLE_ROUNDS,
            pacer.paces() == orig_paces + sampling.rounds as int,
            exists|t: Seq<BusOp>|
                #![auto]
                dev.bus_ops() == orig + t && spec_sampling_trace(
                    t,
                    sampling.rounds as int,
                    sampling.whole_error as int,
                    sampling.maybe_not_started_error as int,
                ),
        decreases SAMPLE_ROUNDS - sampling.rounds,
    {
        let ghost t_prev = choose|t: Seq<BusOp>|
            #![auto]
            dev.bus_ops() == orig + t && spec_sampling_trace(
                t,
                sampling.rounds as int,
                sampling.whole_error as int,
                sampling.maybe_not_started_error as int,
            );
        let ghost pre_round = dev.bus_ops();
        let ghost w_prev = sampling.whole_error as int;
        let ghost m_prev = sampling.maybe_not_started_error as int;
        let ghost n_prev = sampling.rounds as int;
        sampling.observe_round(dev);
        pacer.pace();
        proof {
            let post = dev.bus_ops();
            let round = post.subrange(pre_round.len() as int, post.len() as int);
            assert(post =~= pre_round + round);
            let t_new = t_prev + round;
            assert(post =~= orig + t_new);
            let (f, ns) = choose|f: bool, ns: bool|
                #![auto]
                spec_round_trace(round, f, ns) && sampling.whole_error == w_prev + (if f {
                    1int
                } else {
                    0int
                }) && sampling.maybe_not_started_error == m_prev + (if f && ns {
                    1int
                } else {
                    0int
                });
            assert(spec_sampling_trace(
                t_new,
                n_prev + 1,
                sampling.whole_error as int,
                sampling.maybe_not_started_error as int,
            ));
        }
    }
    let ghost t_all = choose|t: Seq<BusOp>|
        #![auto]
        dev.bus_ops() == orig + t && spec_sampling_trace(
            t,
            SAMPLE_ROUNDS as int,
            sampling.whole_error as int,
            sampling.maybe_not_started_error as int,
        );
    if sampling.should_restart() {
        let ghost pre_start = dev.bus_ops();
        let r = dev.start(mode, interrupt, thresh);
        proof {
            assert forall|x: BusOp| #[trigger] pre_start.push(x) =~= orig + t_all + seq![x] by {}
            assert forall|x: BusOp, y: BusOp| #[trigger]
                pre_start.push(x).push(y) =~= orig + t_all + seq![x, y] by {}
        }
        r
    } else {
        Ok(())
    }
}

} // verus!
