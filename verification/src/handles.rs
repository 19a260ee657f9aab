//! Handles used to manipulate the devices.
//!
//! A handle pairs the session it was obtained from with the raw handle
//! value (an address) that the AMD SMI library gave for the device.

use std::sync::Arc;
use vstd::prelude::*;

use crate::error::{status_check, AmdError};
use crate::status::AmdStatus;
use crate::text::{
    c_string_bytes, c_text, lemma_c_text_of_prefix, lemma_c_text_terminated, lemma_text_end_unique, nul_free, utf8_text,
    utf8_to_string,
};
use vstd::utf8::{decode_utf8, valid_utf8};
use crate::{share, AmdSmi};

verus! {

/// Size of the buffer that receives the UUID of a GPU.
pub const AMDSMI_GPU_UUID_SIZE: u32 = 38;

/// The value the library reports for a fan at full speed.
pub const AMDSMI_MAX_FAN_SPEED: u32 = 255;

/// Handle to a socket in the system.
pub struct AmdSocketHandle<L> {
    amdsmi: Arc<AmdSmi<L>>,
    inner: usize,
}

/// Handle to a processor in a socket.
pub struct AmdProcessorHandle<L> {
    amdsmi: Arc<AmdSmi<L>>,
    inner: usize,
}

/// How many of `len` handles written into a buffer are kept when the
/// library reports `count` of them: the buffer is cut to `count` entries
/// when it is longer.
pub open spec fn kept(count: u32, len: nat) -> nat {
    if count <= len {
        count as nat
    } else {
        len
    }
}

/// The handles kept are as many as the library reported, unless the buffer
/// holds fewer: never more than either, and all of one of them.
pub proof fn law_kept_is_the_smaller(count: u32, len: nat)
    ensures
        kept(count, len) <= count,
        kept(count, len) <= len,
        kept(count, len) == count || kept(count, len) == len,
{
}

impl<L> AmdSocketHandle<L> {
    /// The session this handle belongs to.
    pub closed spec fn session(&self) -> Arc<AmdSmi<L>> {
        self.amdsmi
    }

    /// The raw handle value of the socket.
    pub closed spec fn handle(&self) -> usize {
        self.inner
    }

    /// The session this handle belongs to.
    pub fn amdsmi(&self) -> (res: &Arc<AmdSmi<L>>)
        ensures
            *res == self.session(),
    {
        &self.amdsmi
    }

    /// The raw handle value of the socket.
    pub fn raw(&self) -> (res: usize)
        ensures
            res == self.handle(),
    {
        self.inner
    }

    /// Lists the processors associated to this socket, from what the call
    /// that fills the buffer (`amdsmi_get_processor_handles`) returned:
    /// its `status`, the `count` it reported and the buffer `raw` it filled.
    pub fn processor_handles_from(
        &self,
        status: AmdStatus,
        message: Option<String>,
        count: u32,
        raw: Vec<usize>,
    ) -> (res: Result<Vec<AmdProcessorHandle<L>>, AmdError>)
        ensures
            match res {
                Ok(handles) => {
                    &&& status.succeeded()
                    &&& handles@.len() == kept(count, raw@.len())
                    &&& forall|i: int|
                        0 <= i < handles@.len() ==> (#[trigger] handles@[i]).handle() == raw@[i]
                            && handles@[i].session() == self.session()
                },
                Err(e) => status_check(status, message) == Err::<(), AmdError>(e),
            },
            res is Ok <==> status.0 == 0,
            res matches Ok(handles) ==> {
                &&& handles@.len() <= count
                &&& handles@.len() <= raw@.len()
                &&& (handles@.len() == count || handles@.len() == raw@.len())
            },
            res matches Err(e) ==> e.status == status && e.message == message,
    {
        if let Err(e) = self.amdsmi.check_status(status, message) {
            return Err(e);
        }
        let mut raw = raw;
        raw.truncate(count as usize);
        let n = raw.len();
        let mut handles: Vec<AmdProcessorHandle<L>> = Vec::new();
        for i in 0..n
            invariant
                n == raw@.len(),
                handles@.len() == i,
                forall|j: int|
                    0 <= j < i ==> (#[trigger] handles@[j]).handle() == raw@[j]
                        && handles@[j].session() == self.session(),
        {
            handles.push(AmdProcessorHandle { amdsmi: share(&self.amdsmi), inner: raw[i] });
        }
        Ok(handles)
    }
}

impl<L> AmdSmi<L> {
    /// Lists the available sockets, from what the call that fills the
    /// buffer (`amdsmi_get_socket_handles`) returned: its `status`, the
    /// `count` it reported and the buffer `raw` it filled.
    pub fn socket_handles_from(
        smi: &Arc<Self>,
        status: AmdStatus,
        message: Option<String>,
        count: u32,
        raw: Vec<usize>,
    ) -> (res: Result<Vec<AmdSocketHandle<L>>, AmdError>)
        ensures
            match res {
                Ok(handles) => {
                    &&& status.succeeded()
                    &&& handles@.len() == kept(count, raw@.len())
                    &&& forall|i: int|
                        0 <= i < handles@.len() ==> (#[trigger] handles@[i]).handle() == raw@[i]
                            && handles@[i].session() == *smi
                },
                Err(e) => status_check(status, message) == Err::<(), AmdError>(e),
            },
            res is Ok <==> status.0 == 0,
            res matches Ok(handles) ==> {
                &&& handles@.len() <= count
                &&& handles@.len() <= raw@.len()
                &&& (handles@.len() == count || handles@.len() == raw@.len())
            },
            res matches Err(e) ==> e.status == status && e.message == message,
    {
        if let Err(e) = smi.check_status(status, message) {
            return Err(e);
        }
        let mut raw = raw;
        raw.truncate(count as usize);
        let n = raw.len();
        let mut handles: Vec<AmdSocketHandle<L>> = Vec::new();
        for i in 0..n
            invariant
                n == raw@.len(),
                handles@.len() == i,
                forall|j: int|
                    0 <= j < i ==> (#[trigger] handles@[j]).handle() == raw@[j]
                        && handles@[j].session() == *smi,
        {
            handles.push(AmdSocketHandle { amdsmi: share(smi), inner: raw[i] });
        }
        Ok(handles)
    }
}

/// The fan speed ratio, in percent of full speed, of the raw speed that the
/// library reports (from 0 to `AMDSMI_MAX_FAN_SPEED`): the speed, read as a
/// 32-bit value, times 100, divided by the full speed, rounded down.
pub open spec fn fan_ratio(speed: i64) -> int {
    ((speed as u32) as int * 100) / (AMDSMI_MAX_FAN_SPEED as int)
}

/// For the speeds that the library reports, the ratio is the speed in
/// percent of full speed: from 0 at a standstill to 100 at full speed,
/// never decreasing as the speed grows.
pub proof fn law_fan_ratio_is_percent(a: i64, b: i64)
    requires
        0 <= a <= b <= AMDSMI_MAX_FAN_SPEED,
    ensures
        fan_ratio(a) == a * 100 / 255,
        0 <= fan_ratio(a) <= fan_ratio(b) <= 100,
        fan_ratio(0) == 0,
        fan_ratio(AMDSMI_MAX_FAN_SPEED as i64) == 100,
{
    assert((a as u32) as int == a);
    assert((b as u32) as int == b);
    assert((0i64 as u32) as int == 0);
    assert((255i64 as u32) as int == 255);
    assert(0 <= a * 100 / 255 <= b * 100 / 255 <= 100) by (nonlinear_arith)
        requires
            0 <= a <= b <= 255,
    ;
}

/// The UUID held in the first `length` bytes of the buffer: the C string
/// there, decoded as UTF-8.
pub open spec fn uuid_text(buffer: Seq<u8>, length: u32) -> Option<Seq<char>> {
    utf8_text(c_text(buffer.take(length as int)))
}

/// The UUID is the text before the first NUL of the reported bytes, decoded
/// as UTF-8: when `i` is where that text ends (the first NUL among the first
/// `length` bytes, or `length` when there is none), the UUID is present
/// exactly when the first `i` bytes are valid UTF-8, and it is them decoded.
pub proof fn law_uuid_is_text_before_nul(buffer: Seq<u8>, length: u32, i: int)
    requires
        length <= buffer.len(),
        0 <= i <= length,
        forall|j: int| 0 <= j < i ==> buffer[j] != 0,
        i == length || buffer[i] == 0,
    ensures
        uuid_text(buffer, length) is Some <==> valid_utf8(buffer.take(i)),
        uuid_text(buffer, length) matches Some(t) ==> t == decode_utf8(buffer.take(i)),
{
    let s = buffer.take(length as int);
    assert(s.take(i) =~= buffer.take(i));
    assert(nul_free(s.take(i))) by {
        assert forall|j: int| 0 <= j < i implies s.take(i)[j] != 0 by {
            assert(s.take(i)[j] == buffer[j]);
        }
    }
    if i < length {
        assert(s[i] == buffer[i]);
    }
    lemma_text_end_unique(s, i);
}

impl<L> AmdProcessorHandle<L> {
    /// The session this handle belongs to.
    pub closed spec fn session(&self) -> Arc<AmdSmi<L>> {
        self.amdsmi
    }

    /// The raw handle value of the processor.
    pub closed spec fn handle(&self) -> usize {
        self.inner
    }

    /// The session this handle belongs to.
    pub fn amdsmi(&self) -> (res: &Arc<AmdSmi<L>>)
        ensures
            *res == self.session(),
    {
        &self.amdsmi
    }

    /// The raw handle value of the processor.
    pub fn raw(&self) -> (res: usize)
        ensures
            res == self.handle(),
    {
        self.inner
    }

    /// Retrieves the fan speed ratio, from what `amdsmi_get_gpu_fan_speed`
    /// returned: its `status` and the raw `speed` it wrote.
    pub fn fan_speed_from(&self, status: AmdStatus, message: Option<String>, speed: i64) -> (res: Result<u32, AmdError>)
        ensures
            match res {
                Ok(ratio) => status.succeeded() && ratio == fan_ratio(speed),
                Err(e) => status_check(status, message) == Err::<(), AmdError>(e),
            },
            res is Ok <==> status.0 == 0,
            res matches Ok(ratio) ==> ratio as int == (speed as u32) as int * 100 / 255,
            res matches Err(e) ==> e.status == status && e.message == message,
    {
        if let Err(e) = self.amdsmi.check_status(status, message) {
            return Err(e);
        }
        let speed = speed as u32;
        let ratio = (speed as u64 * 100) / (AMDSMI_MAX_FAN_SPEED as u64);
        assert(ratio <= u32::MAX) by (nonlinear_arith)
            requires
                ratio == (speed as u64 * 100) / 255,
                speed <= u32::MAX,
        ;
        Ok(ratio as u32)
    }

    /// Retrieves the UUID of the GPU device, from what
    /// `amdsmi_get_gpu_device_uuid` returned: its `status`, the `buffer` it
    /// wrote into and the `length` it reported.
    ///
    /// When the last reported byte is the terminating NUL the text is read
    /// from the buffer in place; otherwise the reported bytes are copied and
    /// terminated first. Either way the UUID is the text before the first
    /// NUL of the reported bytes; when it is not UTF-8 the error carries the
    /// (successful) status of the call and no message.
    pub fn uuid_from(&self, status: AmdStatus, message: Option<String>, buffer: &Vec<u8>, length: u32) -> (res: Result<String, AmdError>)
        requires
            status.succeeded() ==> 1 <= length <= buffer@.len(),
        ensures
            match res {
                Ok(uuid) => status.succeeded() && uuid_text(buffer@, length) == Some(uuid@),
                Err(e) => if status.succeeded() {
                    uuid_text(buffer@, length) is None && e == AmdError { status, message: None }
                } else {
                    status_check(status, message) == Err::<(), AmdError>(e)
                },
            },
            status.0 != 0 ==> res == Err::<String, AmdError>(AmdError { status, message }),
            status.0 == 0 && res is Err ==> res == Err::<String, AmdError>(AmdError { status, message: None }),
    {
        if let Err(e) = self.amdsmi.check_status(status, message) {
            return Err(e);
        }
        let len = length as usize;
        let text = if buffer[len - 1] == 0 {
            proof {
                lemma_c_text_of_prefix(buffer@, len - 1);
            }
            c_string_bytes(buffer.as_slice())
        } else {
            let mut terminated: Vec<u8> = Vec::new();
            for i in 0..len
                invariant
                    len <= buffer@.len(),
                    terminated@ == buffer@.take(i as int),
            {
                terminated.push(buffer[i]);
                assert(terminated@ =~= buffer@.take(i + 1));
            }
            terminated.push(0);
            proof {
                lemma_c_text_terminated(buffer@.take(len as int));
            }
            c_string_bytes(terminated.as_slice())
        };
        match utf8_to_string(text) {
            Some(uuid) => Ok(uuid),
            None => Err(AmdError { status, message: None }),
        }
    }
}

} // verus!
