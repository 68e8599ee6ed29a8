use vstd::prelude::*;

use crate::hal::{hal_result, status_result, HalError, HalResult};
use crate::modes::EncodingType;

verus! {

/// A digital input pin, held by the HAL handle it was acquired under.
///
/// It is neither `Copy` nor `Clone`: an encoder that takes one by value is its
/// only owner, so no two live encoders can be built on the same pin value.
#[derive(Debug)]
pub struct DigitalInput {
    handle: i32,
}

impl DigitalInput {
    pub closed spec fn spec_handle(&self) -> i32 {
        self.handle
    }

    /// Takes ownership of a pin that has been acquired under `handle`.
    pub fn from_handle(handle: i32) -> (r: Self)
        ensures
            r.spec_handle() == handle,
    {
        DigitalInput { handle }
    }

    pub fn handle(&self) -> (r: i32)
        ensures
            r == self.spec_handle(),
    {
        self.handle
    }
}

/// The arguments of the hardware call that sets up a quadrature counter.
#[derive(Copy, Clone, Debug, PartialEq, Eq, Structural)]
pub struct CounterInit {
    pub handle_a: i32,
    pub offset_a: i32,
    pub handle_b: i32,
    pub offset_b: i32,
    pub reverse_direction: i32,
    pub encoding: i32,
}

/// The diagnostics record of a new encoder: the counter's FPGA index and the
/// encoding code it was set up with.
#[derive(Copy, Clone, Debug, PartialEq, Eq, Structural)]
pub struct UsageReport {
    pub instance: u32,
    pub context: i32,
}

/// What an encoder holds, as plain values.
pub struct EncoderView {
    pub handle: i32,
    pub source_a: i32,
    pub source_b: i32,
    pub source_index: Option<i32>,
    pub reverse_direction: bool,
    pub encoding: EncodingType,
    /// The counter is held and not yet freed.
    pub live: bool,
}

/// The counter-init call for two pins: both sub-channel offsets are zero, the
/// direction flag is 1 or 0, and the encoding is passed by its HAL code.
pub open spec fn spec_counter_init(
    handle_a: i32,
    handle_b: i32,
    reverse_direction: bool,
    encoding: EncodingType,
) -> CounterInit {
    CounterInit {
        handle_a,
        offset_a: 0,
        handle_b,
        offset_b: 0,
        reverse_direction: if reverse_direction { 1 } else { 0 },
        encoding: encoding.spec_code(),
    }
}

/// The view of an encoder just built on a counter handle.
pub open spec fn spec_fresh(
    handle: i32,
    source_a: i32,
    source_b: i32,
    reverse_direction: bool,
    encoding: EncodingType,
) -> EncoderView {
    EncoderView {
        handle,
        source_a,
        source_b,
        source_index: None,
        reverse_direction,
        encoding,
        live: true,
    }
}

/// Releasing a counter: a live one is freed and its handle handed out for the
/// free call; a freed one stays as it is and hands out nothing.
pub open spec fn spec_release(v: EncoderView) -> (EncoderView, Option<i32>) {
    if v.live {
        (EncoderView { live: false, ..v }, Some(v.handle))
    } else {
        (v, None)
    }
}

/// Builds the counter-init call for two pins.
pub fn counter_init(
    source_a: &DigitalInput,
    source_b: &DigitalInput,
    reverse_direction: bool,
    encoding: EncodingType,
) -> (r: CounterInit)
    ensures
        r == spec_counter_init(
            source_a.spec_handle(),
            source_b.spec_handle(),
            reverse_direction,
            encoding,
        ),
{
    CounterInit {
        handle_a: source_a.handle(),
        offset_a: 0,
        handle_b: source_b.handle(),
        offset_b: 0,
        reverse_direction: if reverse_direction { 1 } else { 0 },
        encoding: encoding.code(),
    }
}

/// A quadrature encoder: a hardware counter that owns the two pins it reads.
///
/// The counting is done by the FPGA. This type decides what is asked of the
/// hardware and what its replies mean, and frees the counter exactly once.
#[derive(Debug)]
pub struct Encoder {
    source_a: DigitalInput,
    source_b: DigitalInput,
    source_index: Option<DigitalInput>,
    encoder: i32,
    reverse_direction: bool,
    encoding: EncodingType,
    live: bool,
}

impl View for Encoder {
    type V = EncoderView;

    closed spec fn view(&self) -> EncoderView {
        EncoderView {
            handle: self.encoder,
            source_a: self.source_a.spec_handle(),
            source_b: self.source_b.spec_handle(),
            source_index: match self.source_index {
                Some(d) => Some(d.spec_handle()),
                None => None,
            },
            reverse_direction: self.reverse_direction,
            encoding: self.encoding,
            live: self.live,
        }
    }
}

impl Encoder {
    /// An encoder counting forwards; see `with_direction`.
    pub fn new(
        source_a: DigitalInput,
        source_b: DigitalInput,
        encoding: EncodingType,
        handle: i32,
        status: i32,
    ) -> (r: HalResult<Encoder>)
        ensures
            r is Ok <==> status == 0,
            r is Err ==> r == Err::<Encoder, HalError>(HalError(status)),
            r matches Ok(e) ==> e@ == spec_fresh(
                handle,
                source_a.spec_handle(),
                source_b.spec_handle(),
                false,
                encoding,
            ),
    {
        Self::with_direction(source_a, source_b, false, encoding, handle, status)
    }

    /// Takes the two pins and the reply to their counter-init call (the handle
    /// and the status). On status zero the encoder owns the pins and the
    /// counter; otherwise the pins are dropped and the status is the error.
    pub fn with_direction(
        source_a: DigitalInput,
        source_b: DigitalInput,
        reverse_direction: bool,
        encoding: EncodingType,
        handle: i32,
        status: i32,
    ) -> (r: HalResult<Encoder>)
        ensures
            r is Ok <==> status == 0,
            r is Err ==> r == Err::<Encoder, HalError>(HalError(status)),
            r matches Ok(e) ==> e@ == spec_fresh(
                handle,
                source_a.spec_handle(),
                source_b.spec_handle(),
                reverse_direction,
                encoding,
            ),
    {
        match hal_result(handle, status) {
            Ok(encoder) => Ok(
                Encoder {
                    source_a,
                    source_b,
                    source_index: None,
                    encoder,
                    reverse_direction,
                    encoding,
                    live: true,
                },
            ),
            Err(e) => Err(e),
        }
    }

    /// The counter handle, for the calls made on it.
    pub fn handle(&self) -> (r: i32)
        requires
            self@.live,
        ensures
            r == self@.handle,
    {
        self.encoder
    }

    pub fn is_live(&self) -> (r: bool)
        ensures
            r == self@.live,
    {
        self.live
    }

    pub fn reverse_direction(&self) -> (r: bool)
        ensures
            r == self@.reverse_direction,
    {
        self.reverse_direction
    }

    pub fn encoding(&self) -> (r: EncodingType)
        ensures
            r == self@.encoding,
    {
        self.encoding
    }

    /// The counter's FPGA index, given the reply to the index query. That query
    /// fails only on an invalid handle, which a live encoder never holds, so a
    /// non-zero status is a broken invariant that callers stop on beforehand.
    pub fn fpga_index(&self, index: i32, status: i32) -> (r: i32)
        requires
            self@.live,
            status == 0,
        ensures
            r == index,
    {
        index
    }

    /// The diagnostics record for this encoder, given its FPGA index.
    pub fn usage_report(&self, fpga_index: i32) -> (r: UsageReport)
        ensures
            r == (UsageReport { instance: fpga_index as u32, context: self@.encoding.spec_code() }),
    {
        UsageReport { instance: fpga_index as u32, context: self.encoding.code() }
    }

    /// The calibrated count, given the reply to the count query.
    pub fn get(&self, value: i32, status: i32) -> (r: HalResult<i32>)
        requires
            self@.live,
        ensures
            r == status_result(value, status),
    {
        hal_result(value, status)
    }

    /// The raw count, given the reply to the raw-count query.
    pub fn get_raw(&self, value: i32, status: i32) -> (r: HalResult<i32>)
        requires
            self@.live,
        ensures
            r == status_result(value, status),
    {
        hal_result(value, status)
    }

    /// The divisor between raw and calibrated counts, given the reply to the
    /// scale query.
    pub fn encoding_scale(&self, value: i32, status: i32) -> (r: HalResult<i32>)
        requires
            self@.live,
        ensures
            r == status_result(value, status),
    {
        hal_result(value, status)
    }

    /// The outcome of setting the stationary threshold, given the call's
    /// status. The encoder itself is unchanged whatever the status.
    pub fn set_min_rate(&mut self, status: i32) -> (r: HalResult<()>)
        requires
            old(self)@.live,
        ensures
            final(self)@ == old(self)@,
            r == status_result((), status),
    {
        hal_result((), status)
    }

    /// The outcome of zeroing the count, given the call's status. The encoder
    /// itself is unchanged whatever the status.
    pub fn reset(&mut self, status: i32) -> (r: HalResult<()>)
        requires
            old(self)@.live,
        ensures
            final(self)@ == old(self)@,
            r == status_result((), status),
    {
        hal_result((), status)
    }

    /// Gives up the counter: on a live encoder, returns the handle to free and
    /// marks the counter freed; on a freed one, returns `None`. The pins stay
    /// owned until the encoder itself is dropped, after the counter.
    pub fn release(&mut self) -> (r: Option<i32>)
        ensures
            (final(self)@, r) == spec_release(old(self)@),
    {
        if self.live {
            self.live = false;
            Some(self.encoder)
        } else {
            None
        }
    }
}

/// The counter is freed exactly once: the first release of a live encoder
/// hands out its handle for the free call and leaves it freed, with its pins
/// and settings kept; every later release hands out nothing and changes nothing.
pub proof fn lemma_release_once(v: EncoderView)
    requires
        v.live,
    ensures
        spec_release(v).1 == Some(v.handle),
        !spec_release(v).0.live,
        spec_release(v).0 == (EncoderView { live: false, ..v }),
        forall|w: EncoderView| !w.live ==> spec_release(w) == (w, None::<i32>),
        spec_release(spec_release(v).0) == (spec_release(v).0, None::<i32>),
{
}

} // verus!
