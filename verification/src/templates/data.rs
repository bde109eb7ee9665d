//! Template 7.200: the run-length decoder for level-valued packed data.
//!
//! The payload is a byte stream of "packets": a literal byte (at most `mv`)
//! opens a run at that level; each following byte above `mv` extends the run
//! by `(byte - mv - 1) * m`, where the multiplier `m` starts at 1 and is
//! multiplied by `255 - mv` after every such continuation byte — a
//! variable-radix positional encoding of the run length.  A byte at or below
//! `mv` closes the run and opens the next one at that level.

use vstd::prelude::*;
use vstd::slice::slice_index_get;

use crate::message::DataRepresentationSectionHeader;
use crate::templates::data_representation::DataRepresentationTemplate5_200;
use crate::Error;

verus! {

/// The largest run length the decoder's 64-bit counter can hold.  A run
/// declared past it is rejected as [`Error::RunLengthOverflow`].
pub const MAX_RUN_LENGTH: u64 = 0xFFFF_FFFF_FFFF_FFFF;

/// The decoded element for level `lv`: level 0 is a missing point, a
/// positive level is resolved through the one-based representative value
/// table.
pub open spec fn level_value(lv: u8, table: Seq<u16>) -> Option<u16> {
    if lv == 0 {
        None
    } else {
        Some(table[lv - 1])
    }
}

/// Scans the continuation bytes of one run.
///
/// `p` counts payload bytes, bounded by `size`; `run` and `m` are the run
/// length and multiplier accumulated so far.  Yields the final run length,
/// the count after the scan, and the byte that closed the run (0 when the
/// payload ended instead).  Fails when a byte must be read past the end of
/// `data`, or when the run length leaves the decoder's 64-bit counter.
pub open spec fn scan_run(data: Seq<u8>, size: int, p: int, mv: u16, run: nat, m: nat)
    -> Result<(nat, int, u8), Error>
    decreases size - p,
{
    if p >= size {
        Ok((run, p, 0u8))
    } else if p >= data.len() {
        Err(Error::UnexpectedEndOfInput)
    } else if data[p] as u16 > mv {
        let digit = (data[p] as u16 - mv - 1) as nat;
        if digit > 0 && run + digit * m > MAX_RUN_LENGTH {
            Err(Error::RunLengthOverflow)
        } else {
            scan_run(data, size, p + 1, mv, run + digit * m, m * ((255 - mv) as nat))
        }
    } else {
        Ok((run, p, data[p]))
    }
}

/// After a successful scan the count has moved forward, at most to `size`.
pub proof fn lemma_scan_run_bounds(data: Seq<u8>, size: int, p: int, mv: u16, run: nat, m: nat)
    requires
        p <= size,
    ensures
        match scan_run(data, size, p, mv, run, m) {
            Ok((run2, p2, _)) => p <= p2 <= size && run <= run2,
            Err(_) => true,
        },
    decreases size - p,
{
    if p >= size {
    } else if p >= data.len() {
    } else if data[p] as u16 > mv {
        let digit = (data[p] as u16 - mv - 1) as nat;
        if digit > 0 && run + digit * m > MAX_RUN_LENGTH {
        } else {
            assert(run + digit * m >= run) by (nonlinear_arith);
            lemma_scan_run_bounds(data, size, p + 1, mv, run + digit * m,
                m * ((255 - mv) as nat));
        }
    } else {
    }
}

/// Decodes the runs of a payload from count `p` on, where `data[p]` is the
/// current run's level byte.  Yields one element per unit of run length, in
/// payload order.
pub open spec fn rle_runs(data: Seq<u8>, size: int, p: int, mv: u16, table: Seq<u16>)
    -> Result<Seq<Option<u16>>, Error>
    decreases size - p,
    via rle_runs_decreases
{
    if p >= size {
        Ok(Seq::empty())
    } else {
        let lv = data[p];
        match scan_run(data, size, p + 1, mv, 1, 1) {
            Err(e) => Err(e),
            Ok((run, p2, _)) => {
                if lv != 0 && lv - 1 >= table.len() {
                    Err(Error::LevelOutOfRange(lv))
                } else {
                    match rle_runs(data, size, p2, mv, table) {
                        Err(e) => Err(e),
                        Ok(rest) => Ok(Seq::new(run, |i: int| level_value(lv, table)).add(rest)),
                    }
                }
            },
        }
    }
}

#[via_fn]
proof fn rle_runs_decreases(data: Seq<u8>, size: int, p: int, mv: u16, table: Seq<u16>) {
    if p < size {
        lemma_scan_run_bounds(data, size, p + 1, mv, 1, 1);
    }
}

/// Prefixes already-decoded elements to the rest of a decode, passing an
/// error through.
pub open spec fn prepend_decoded(prefix: Seq<Option<u16>>,
    rest: Result<Seq<Option<u16>>, Error>) -> Result<Seq<Option<u16>>, Error> {
    match rest {
        Ok(s) => Ok(prefix.add(s)),
        Err(e) => Err(e),
    }
}

proof fn lemma_prepend_nil(rest: Result<Seq<Option<u16>>, Error>)
    ensures
        prepend_decoded(Seq::empty(), rest) == rest,
{
    match rest {
        Ok(s) => {
            assert(Seq::<Option<u16>>::empty().add(s) =~= s);
        },
        Err(_) => {},
    }
}

proof fn lemma_prepend_prepend(a: Seq<Option<u16>>, b: Seq<Option<u16>>,
    rest: Result<Seq<Option<u16>>, Error>)
    ensures
        prepend_decoded(a, prepend_decoded(b, rest)) == prepend_decoded(a.add(b), rest),
{
    match rest {
        Ok(s) => {
            assert(a.add(b.add(s)) =~= a.add(b).add(s));
        },
        Err(_) => {},
    }
}

/// What decoding a template 7.200 payload of `size` bytes yields: the
/// decoded element sequence, or the error that stops the decode.  Only 8
/// bits per packed value are supported, and the first level byte must
/// exist.
pub open spec fn rle_decode(data: Seq<u8>, size: int, number_of_bits: u8, mv: u16,
    table: Seq<u16>) -> Result<Seq<Option<u16>>, Error> {
    if number_of_bits != 8 {
        Err(Error::UnsupportedNumberOfBits(number_of_bits))
    } else if size == 0 || data.len() == 0 {
        Err(Error::UnexpectedEndOfInput)
    } else {
        rle_runs(data, size, 0, mv, table)
    }
}

/// A payload of three literal level bytes (each at most `mv`) decodes to
/// exactly three elements, one per byte, with no continuation: each byte
/// opens a run of length one at its own level.
pub proof fn lemma_rle_literal_runs(lv: u8, mv: u16, table: Seq<u16>)
    requires
        lv as u16 <= mv,
        lv == 0 || lv - 1 < table.len(),
    ensures
        rle_decode(seq![lv, lv, lv], 3, 8, mv, table) == Ok::<Seq<Option<u16>>, Error>(
            seq![level_value(lv, table), level_value(lv, table), level_value(lv, table)]),
{
    let data = seq![lv, lv, lv];
    let v = level_value(lv, table);
    assert(data.len() == 3);
    assert(data[0] == lv && data[1] == lv && data[2] == lv);
    assert(scan_run(data, 3, 3, mv, 1, 1) == Ok::<(nat, int, u8), Error>((1, 3, 0u8)));
    assert(scan_run(data, 3, 2, mv, 1, 1) == Ok::<(nat, int, u8), Error>((1, 2, lv)));
    assert(scan_run(data, 3, 1, mv, 1, 1) == Ok::<(nat, int, u8), Error>((1, 1, lv)));
    assert(rle_runs(data, 3, 3, mv, table)
        == Ok::<Seq<Option<u16>>, Error>(Seq::empty()));
    let one = Seq::new(1, |i: int| level_value(lv, table));
    assert(rle_runs(data, 3, 2, mv, table)
        == Ok::<Seq<Option<u16>>, Error>(one.add(Seq::empty())));
    assert(rle_runs(data, 3, 1, mv, table)
        == Ok::<Seq<Option<u16>>, Error>(one.add(one.add(Seq::empty()))));
    assert(rle_runs(data, 3, 0, mv, table)
        == Ok::<Seq<Option<u16>>, Error>(one.add(one.add(one.add(Seq::empty())))));
    assert(one.add(one.add(one.add(Seq::empty()))) =~= seq![v, v, v]);
}

/// A payload of a literal level byte, one continuation byte `c` above `mv`,
/// and a closing literal decodes to the first level repeated
/// `1 + (c - mv - 1) * 1` times, then the second level once: the worked form
/// of the run length formula for a single continuation byte.
pub proof fn lemma_rle_single_continuation(lv0: u8, c: u8, lv1: u8, mv: u16, table: Seq<u16>)
    requires
        lv0 as u16 <= mv,
        lv1 as u16 <= mv,
        c as u16 > mv,
        lv0 == 0 || lv0 - 1 < table.len(),
        lv1 == 0 || lv1 - 1 < table.len(),
    ensures
        rle_decode(seq![lv0, c, lv1], 3, 8, mv, table) == Ok::<Seq<Option<u16>>, Error>(
            Seq::new((1 + (c as u16 - mv - 1)) as nat, |i: int| level_value(lv0, table))
                .push(level_value(lv1, table))),
{
    let data = seq![lv0, c, lv1];
    let digit = (c as u16 - mv - 1) as nat;
    assert(data.len() == 3);
    assert(data[0] == lv0 && data[1] == c && data[2] == lv1);
    assert(digit * 1 == digit) by (nonlinear_arith);
    assert(1 + digit * 1 <= 256);
    assert(scan_run(data, 3, 2, mv, 1 + digit, 1 * ((255 - mv) as nat))
        == Ok::<(nat, int, u8), Error>((1 + digit, 2, lv1)));
    assert(scan_run(data, 3, 1, mv, 1, 1)
        == Ok::<(nat, int, u8), Error>((1 + digit, 2, lv1)));
    assert(scan_run(data, 3, 3, mv, 1, 1) == Ok::<(nat, int, u8), Error>((1, 3, 0u8)));
    assert(rle_runs(data, 3, 3, mv, table)
        == Ok::<Seq<Option<u16>>, Error>(Seq::empty()));
    let tail = Seq::new(1, |i: int| level_value(lv1, table));
    assert(rle_runs(data, 3, 2, mv, table)
        == Ok::<Seq<Option<u16>>, Error>(tail.add(Seq::empty())));
    let head = Seq::new(1 + digit, |i: int| level_value(lv0, table));
    assert(rle_runs(data, 3, 0, mv, table)
        == Ok::<Seq<Option<u16>>, Error>(head.add(tail.add(Seq::empty()))));
    assert(head.add(tail.add(Seq::empty()))
        =~= Seq::new((1 + (c as u16 - mv - 1)) as nat, |i: int| level_value(lv0, table))
            .push(level_value(lv1, table)));
}

/// Consumes one run's continuation bytes: the counter `p` moves past every
/// byte above `mv`, accumulating the run length, and stops on the byte that
/// closes the run (returned as the next run's level) or at `size`.
#[verifier::loop_isolation(false)]
fn scan_continuations(data: &[u8], size: usize, p: &mut usize, mv: u16)
    -> (r: Result<(u64, u8), Error>)
    requires
        *old(p) <= size,
    ensures
        match r {
            Ok((run, next)) => {
                &&& *old(p) <= *final(p) <= size
                &&& scan_run(data@, size as int, *old(p) as int, mv, 1, 1)
                    == Ok::<(nat, int, u8), Error>((run as nat, *final(p) as int,
                        if *final(p) < size { data@[*final(p) as int] } else { 0u8 }))
                &&& (*final(p) < size ==> *final(p) < data@.len()
                    && next == data@[*final(p) as int])
            },
            Err(e) => scan_run(data@, size as int, *old(p) as int, mv, 1, 1)
                == Err::<(nat, int, u8), Error>(e),
        },
{
    let mut run_length: u64 = 1;
    let mut m: u64 = 1;
    let mut m_valid: bool = true;
    let ghost mut gm: nat = 1;
    while *p < size
        invariant
            *old(p) <= *p <= size,
            m_valid ==> gm == m,
            !m_valid ==> gm > MAX_RUN_LENGTH,
            scan_run(data@, size as int, *old(p) as int, mv, 1, 1)
                == scan_run(data@, size as int, *p as int, mv, run_length as nat, gm),
        decreases size - *p,
    {
        if *p >= data.len() {
            proof {
                assert(scan_run(data@, size as int, *p as int, mv, run_length as nat, gm)
                    == Err::<(nat, int, u8), Error>(Error::UnexpectedEndOfInput));
            }
            return Err(Error::UnexpectedEndOfInput);
        }
        let next = *slice_index_get(data, *p);
        if next as u16 > mv {
            let ghost run_old: nat = run_length as nat;
            let ghost gm_old: nat = gm;
            let ghost p_old: int = *p as int;
            let digit16 = next as u16 - mv - 1;
            let digit = digit16 as u64;
            if digit > 0 {
                if !m_valid {
                    proof {
                        assert(run_old + (digit as nat) * gm > MAX_RUN_LENGTH)
                            by (nonlinear_arith)
                            requires
                                gm > MAX_RUN_LENGTH,
                                digit >= 1,
                                run_old >= 0,
                        ;
                        assert(scan_run(data@, size as int, *p as int, mv,
                            run_length as nat, gm)
                            == Err::<(nat, int, u8), Error>(Error::RunLengthOverflow));
                    }
                    return Err(Error::RunLengthOverflow);
                }
                let add = match digit.checked_mul(m) {
                    Some(v) => v,
                    None => {
                        proof {
                            assert(scan_run(data@, size as int, *p as int, mv,
                                run_length as nat, gm)
                                == Err::<(nat, int, u8), Error>(Error::RunLengthOverflow));
                        }
                        return Err(Error::RunLengthOverflow);
                    },
                };
                run_length = match run_length.checked_add(add) {
                    Some(v) => v,
                    None => {
                        proof {
                            assert(scan_run(data@, size as int, *p as int, mv,
                                run_old, gm)
                                == Err::<(nat, int, u8), Error>(Error::RunLengthOverflow));
                        }
                        return Err(Error::RunLengthOverflow);
                    },
                };
            } else {
                proof {
                    assert((digit as nat) * gm == 0) by (nonlinear_arith)
                        requires
                            digit == 0,
                    ;
                }
            }
            let radix = (255 - mv) as u64;
            proof {
                gm = gm * (radix as nat);
            }
            if m_valid {
                match m.checked_mul(radix) {
                    Some(v) => {
                        m = v;
                    },
                    None => {
                        m_valid = false;
                    },
                }
            } else {
                proof {
                    assert(gm_old * (radix as nat) > MAX_RUN_LENGTH) by (nonlinear_arith)
                        requires
                            gm_old > MAX_RUN_LENGTH,
                            radix >= 1,
                    ;
                }
            }
            proof {
                assert(run_length as nat == run_old + (digit as nat) * gm_old);
                assert(scan_run(data@, size as int, p_old, mv, run_old, gm_old)
                    == scan_run(data@, size as int, p_old + 1, mv,
                        run_old + (digit as nat) * gm_old,
                        gm_old * ((255 - mv) as nat)));
            }
            *p = *p + 1;
        } else {
            proof {
                assert(scan_run(data@, size as int, *p as int, mv, run_length as nat, gm)
                    == Ok::<(nat, int, u8), Error>((run_length as nat, *p as int,
                        data@[*p as int])));
            }
            return Ok((run_length, next));
        }
    }
    proof {
        assert(scan_run(data@, size as int, *p as int, mv, run_length as nat, gm)
            == Ok::<(nat, int, u8), Error>((run_length as nat, *p as int, 0u8)));
    }
    Ok((run_length, 0))
}

/// Decodes a data section's template 7.200 payload: `data` is the section's
/// body, `size` its declared byte length, and `drs_template` the previously
/// parsed run-length template whose level table resolves the decoded
/// values.  The `drs` header only sizes the result's allocation.  One
/// element per grid point comes out in payload order, `None` for level 0.
#[verifier::loop_isolation(false)]
pub fn read_data_7_200(data: &[u8], size: usize, drs: &DataRepresentationSectionHeader,
    drs_template: &DataRepresentationTemplate5_200) -> (r: Result<Vec<Option<u16>>, Error>)
    ensures
        match r {
            Ok(values) => rle_decode(data@, size as int, drs_template.number_of_bits,
                drs_template.mv, drs_template.mvl_scaled_representative_values@)
                == Ok::<Seq<Option<u16>>, Error>(values@),
            Err(e) => rle_decode(data@, size as int, drs_template.number_of_bits,
                drs_template.mv, drs_template.mvl_scaled_representative_values@)
                == Err::<Seq<Option<u16>>, Error>(e),
        },
        drs_template.number_of_bits != 8 ==> r == Err::<Vec<Option<u16>>, Error>(
            Error::UnsupportedNumberOfBits(drs_template.number_of_bits)),
{
    if drs_template.number_of_bits != 8 {
        return Err(Error::UnsupportedNumberOfBits(drs_template.number_of_bits));
    }
    if size == 0 || data.len() == 0 {
        return Err(Error::UnexpectedEndOfInput);
    }

    let ghost mv = drs_template.mv;
    let ghost table = drs_template.mvl_scaled_representative_values@;
    let ghost target = rle_runs(data@, size as int, 0, mv, table);

    let mut values: Vec<Option<u16>> = Vec::with_capacity(drs.number_of_values as usize);
    proof {
        lemma_prepend_nil(rle_runs(data@, size as int, 0, mv, table));
        assert(values@ =~= Seq::<Option<u16>>::empty());
    }

    let mut lv: u8 = *slice_index_get(data, 0);
    let mut p: usize = 0;
    while p < size
        invariant
            p <= size,
            p < size ==> p < data@.len() && lv == data@[p as int],
            target == prepend_decoded(values@, rle_runs(data@, size as int, p as int, mv, table)),
        decreases size - p,
    {
        let ghost gp = p as int;
        p = p + 1;
        let (run_length, next) = match scan_continuations(data, size, &mut p, drs_template.mv) {
            Ok(v) => v,
            Err(e) => {
                proof {
                    assert(rle_runs(data@, size as int, gp, mv, table)
                        == Err::<Seq<Option<u16>>, Error>(e));
                }
                return Err(e);
            },
        };
        let value: Option<u16> = if lv == 0 {
            None
        } else {
            let idx = (lv - 1) as usize;
            let table_len = drs_template.mvl_scaled_representative_values.len();
            if idx < table_len {
                Some(drs_template.mvl_scaled_representative_values[idx])
            } else {
                proof {
                    assert(rle_runs(data@, size as int, gp, mv, table)
                        == Err::<Seq<Option<u16>>, Error>(Error::LevelOutOfRange(lv)));
                }
                return Err(Error::LevelOutOfRange(lv));
            }
        };
        proof {
            assert(value == level_value(lv, table));
        }
        let ghost new_run = Seq::new(run_length as nat, |i: int| level_value(lv, table));
        proof {
            assert(rle_runs(data@, size as int, gp, mv, table)
                == prepend_decoded(new_run, rle_runs(data@, size as int, p as int, mv, table)));
            lemma_prepend_prepend(values@, new_run,
                rle_runs(data@, size as int, p as int, mv, table));
        }
        let ghost values_before = values@;
        let mut k: u64 = 0;
        while k < run_length
            invariant
                k <= run_length,
                values@ == values_before.add(Seq::new(k as nat,
                    |i: int| level_value(lv, table))),
            decreases run_length - k,
        {
            values.push(value);
            k = k + 1;
            proof {
                assert(values@ =~= values_before.add(Seq::new(k as nat,
                    |i: int| level_value(lv, table))));
            }
        }
        proof {
            assert(values@ == values_before.add(new_run));
        }
        lv = next;
    }
    proof {
        assert(rle_runs(data@, size as int, p as int, mv, table)
            == Ok::<Seq<Option<u16>>, Error>(Seq::empty()));
        assert(values@.add(Seq::<Option<u16>>::empty()) =~= values@);
    }
    Ok(values)
}

} // verus!
