//! Message model: the canonical in-process representation of a CAN frame and
//! its display form.

use vstd::prelude::*;
use vstd::string::StringExecFns;

use crate::text::dec_digits;
use crate::text::hex_digits;
use crate::text::trim_trailing_zeros;
use crate::text::zero_extend;
use crate::text::append_dec;
use crate::text::append_fraction;
use crate::text::append_hex;
use crate::text::append_hex_pad3;

verus! {

/// A backend-supplied receive time, split into whole seconds and the
/// microseconds within the second.
#[derive(Clone, Copy, Debug)]
pub struct CanTimestamp {
    pub secs: u64,
    pub micros: u32,
}

impl CanTimestamp {
    /// The microseconds name a fraction of one second.
    pub open spec fn well_formed(self) -> bool {
        self.micros < 1000000
    }

    pub fn new(secs: u64, micros: u32) -> (ts: CanTimestamp)
        requires
            micros < 1000000,
        ensures
            ts.well_formed(),
            ts.secs == secs,
            ts.micros == micros,
    {
        CanTimestamp { secs, micros }
    }

    /// The display form of the timestamp: seconds, a point, and the fraction
    /// with trailing zeros trimmed down to at least one digit.
    pub open spec fn spec_text(self) -> Seq<char> {
        dec_digits(self.secs as nat) + "."@ + trim_trailing_zeros(
            zero_extend(dec_digits(self.micros as nat), 6),
        )
    }
}

/// A CAN frame as this layer represents it, independent of the backend it
/// came from or goes to.
///
/// `dlc` is settable independently of the payload length (a backend may
/// normalize it); `timestamp` is present only on received frames.  When
/// `is_error_frame` is set, `data` and `dlc` carry no meaning for display.
#[derive(Debug)]
pub struct PyCanMessage {
    pub arbitration_id: u32,
    pub data: Option<Vec<u8>>,
    pub dlc: Option<u8>,
    pub is_error_frame: bool,
    pub timestamp: Option<CanTimestamp>,
}

/// The display form of an optional timestamp: a literal `None` marker when
/// absent.
pub open spec fn spec_opt_timestamp_text(o: Option<CanTimestamp>) -> Seq<char> {
    match o {
        Option::None => "None"@,
        Option::Some(ts) => ts.spec_text(),
    }
}

/// The display form of an optional data length code: upper-case hexadecimal,
/// or the `None` marker.
pub open spec fn spec_opt_dlc_text(o: Option<u8>) -> Seq<char> {
    match o {
        Option::None => "None"@,
        Option::Some(d) => hex_digits(d as nat),
    }
}

/// The display form of a payload's bytes: each byte in upper-case
/// hexadecimal without padding, separated by a comma and a space.
pub open spec fn spec_byte_list_text(bs: Seq<u8>) -> Seq<char>
    decreases bs.len(),
{
    if bs.len() == 0 {
        Seq::<char>::empty()
    } else if bs.len() == 1 {
        hex_digits(bs[0] as nat)
    } else {
        spec_byte_list_text(bs.drop_last()) + ", "@ + hex_digits(bs.last() as nat)
    }
}

/// The display form of an optional payload: the bracketed byte list, or the
/// `None` marker.
pub open spec fn spec_opt_data_text(o: Option<Vec<u8>>) -> Seq<char> {
    match o {
        Option::None => "None"@,
        Option::Some(bytes) => "["@ + spec_byte_list_text(bytes@) + "]"@,
    }
}

/// What a frame built for transmission from identifier `id` and payload
/// `data` holds: exactly the submitted identifier and bytes, the data length
/// code computed from the payload length, no error marker, and no timestamp.
pub open spec fn is_tx_frame(f: PyCanMessage, id: u32, data: Seq<u8>) -> bool {
    &&& f.arbitration_id == id
    &&& f.data matches Option::Some(d) && d@ == data
    &&& f.dlc == Option::Some(data.len() as u8)
    &&& !f.is_error_frame
    &&& f.timestamp is None
}

impl PyCanMessage {
    /// Builds the frame a send transmits, per [`is_tx_frame`].
    pub fn new_tx(arbitration_id: u32, data: &[u8]) -> (f: PyCanMessage)
        requires
            data@.len() <= 8,
        ensures
            is_tx_frame(f, arbitration_id, data@),
            f.well_formed(),
    {
        let dlc: u8 = data.len() as u8;
        PyCanMessage {
            arbitration_id,
            data: Option::Some(vstd::slice::slice_to_vec(data)),
            dlc: Option::Some(dlc),
            is_error_frame: false,
            timestamp: Option::None,
        }
    }

    /// Any timestamp the frame carries names a valid fraction.
    pub open spec fn well_formed(self) -> bool {
        self.timestamp matches Option::Some(ts) ==> ts.well_formed()
    }

    /// The full display form: an error frame renders as an `ERROR FRAME`
    /// marker after the timestamp, any other frame as its identifier
    /// (three-digit zero-padded hexadecimal), data length code, and payload.
    pub open spec fn spec_display(self) -> Seq<char> {
        if self.is_error_frame {
            "PyCanMessage: @"@ + spec_opt_timestamp_text(self.timestamp) + " ERROR FRAME"@
        } else {
            "PyCanMessage: @"@ + spec_opt_timestamp_text(self.timestamp) + " | id=0x"@
                + zero_extend(hex_digits(self.arbitration_id as nat), 3) + " | dlc="@
                + spec_opt_dlc_text(self.dlc) + " | data="@ + spec_opt_data_text(self.data)
        }
    }

    /// Renders the frame as [`Self::spec_display`] says.
    pub fn display_string(&self) -> (s: String)
        requires
            self.well_formed(),
        ensures
            s@ == self.spec_display(),
    {
        let mut out = String::from_str("PyCanMessage: @");
        match &self.timestamp {
            Option::None => out.append("None"),
            Option::Some(ts) => {
                append_dec(&mut out, ts.secs);
                out.append(".");
                append_fraction(&mut out, ts.micros);
            },
        }
        proof {
            assert(out@ =~= "PyCanMessage: @"@ + spec_opt_timestamp_text(self.timestamp));
        }
        if self.is_error_frame {
            out.append(" ERROR FRAME");
            proof {
                assert(out@ =~= self.spec_display());
            }
            return out;
        }
        out.append(" | id=0x");
        append_hex_pad3(&mut out, self.arbitration_id);
        out.append(" | dlc=");
        match &self.dlc {
            Option::None => out.append("None"),
            Option::Some(d) => append_hex(&mut out, *d as u32),
        }
        out.append(" | data=");
        match &self.data {
            Option::None => out.append("None"),
            Option::Some(bytes) => {
                out.append("[");
                let ghost before = out@;
                let n = bytes.len();
                let mut i: usize = 0;
                while i < n
                    invariant
                        i <= n,
                        n == bytes@.len(),
                        out@ == before + spec_byte_list_text(bytes@.take(i as int)),
                    decreases n - i,
                {
                    if i > 0 {
                        out.append(", ");
                    }
                    append_hex(&mut out, bytes[i] as u32);
                    proof {
                        assert(bytes@.take(i + 1).drop_last() =~= bytes@.take(i as int));
                        assert(bytes@.take(i + 1).last() == bytes@[i as int]);
                        assert(out@ =~= before + spec_byte_list_text(bytes@.take(i + 1)));
                    }
                    i = i + 1;
                }
                proof {
                    assert(bytes@.take(n as int) =~= bytes@);
                }
                out.append("]");
            },
        }
        proof {
            assert(out@ =~= self.spec_display());
        }
        out
    }
}

} // verus!
