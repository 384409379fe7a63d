//! Recording raw datagrams to a capture: the mode machine
//! Idle → Armed → Recording → Idle (or Armed → Idle), and the bytes of each
//! record.
use vstd::prelude::*;
use crate::capture::{encode_record, record_bytes};

verus! {

#[derive(Clone, Copy, Debug, PartialEq, Eq, Structural)]
pub enum RecordMode {
    Idle,
    Armed,
    Recording,
}

impl RecordMode {
    pub fn as_str(&self) -> (r: &'static str)
        ensures
            r@ == (match *self {
                RecordMode::Idle => "idle"@,
                RecordMode::Armed => "armed"@,
                RecordMode::Recording => "recording"@,
            }),
    {
        proof {
            reveal_strlit("idle");
            reveal_strlit("armed");
            reveal_strlit("recording");
        }
        match *self {
            RecordMode::Idle => "idle",
            RecordMode::Armed => "armed",
            RecordMode::Recording => "recording",
        }
    }
}

/// The recorder's state; the open file itself is kept by the caller.
pub struct RecordState {
    pub mode: RecordMode,
    pub path: Option<String>,
    /// Monotonic time of the first recorded datagram.
    pub start_ms: Option<u64>,
    pub frames: u64,
}

pub struct RecordStatusResponse {
    pub mode: &'static str,
    pub active: bool,
    pub armed: bool,
    pub path: Option<String>,
    pub frames: u64,
}

impl RecordState {
    pub fn new() -> (r: RecordState)
        ensures
            r.mode == RecordMode::Idle,
            r.path is None,
            r.start_ms is None,
            r.frames == 0,
    {
        RecordState { mode: RecordMode::Idle, path: None, start_ms: None, frames: 0 }
    }

    /// Arms the recorder to write to `path` when the next race starts; only
    /// from idle.
    pub fn arm(&mut self, path: String)
        ensures
            old(self).mode == RecordMode::Idle ==> {
                &&& final(self).mode == RecordMode::Armed
                &&& final(self).path is Some
                &&& final(self).path.unwrap()@ == path@
                &&& final(self).start_ms is None
                &&& final(self).frames == 0
            },
            old(self).mode != RecordMode::Idle ==> {
                &&& final(self).mode == old(self).mode
                &&& final(self).path == old(self).path
                &&& final(self).start_ms == old(self).start_ms
                &&& final(self).frames == old(self).frames
            },
    {
        if self.mode != RecordMode::Idle {
            return;
        }
        self.mode = RecordMode::Armed;
        self.path = Some(path);
        self.start_ms = None;
        self.frames = 0;
    }

    /// The file was opened: an armed recorder starts recording at `now_ms`.
    pub fn begin(&mut self, now_ms: u64)
        ensures
            old(self).mode == RecordMode::Armed ==> {
                &&& final(self).mode == RecordMode::Recording
                &&& final(self).start_ms == Some(now_ms)
                &&& final(self).frames == 0
                &&& final(self).path == old(self).path
            },
            old(self).mode != RecordMode::Armed ==> {
                &&& final(self).mode == old(self).mode
                &&& final(self).start_ms == old(self).start_ms
                &&& final(self).frames == old(self).frames
                &&& final(self).path == old(self).path
            },
    {
        if self.mode != RecordMode::Armed {
            return;
        }
        self.start_ms = Some(now_ms);
        self.frames = 0;
        self.mode = RecordMode::Recording;
    }

    /// Opening or writing the file failed, or no path was set: back to idle.
    pub fn fail(&mut self)
        ensures
            final(self).mode == RecordMode::Idle,
            final(self).start_ms is None,
            final(self).frames == old(self).frames,
            final(self).path == old(self).path,
    {
        self.mode = RecordMode::Idle;
        self.start_ms = None;
    }

    /// Stops a recording; returns whether one was running (and its file
    /// wants flushing). An armed or idle recorder is left as it is.
    pub fn stop(&mut self) -> (r: bool)
        ensures
            r == (old(self).mode == RecordMode::Recording),
            r ==> final(self).mode == RecordMode::Idle && final(self).start_ms is None,
            !r ==> final(self).mode == old(self).mode && final(self).start_ms == old(
                self,
            ).start_ms,
            final(self).frames == old(self).frames,
            final(self).path == old(self).path,
    {
        if self.mode != RecordMode::Recording {
            return false;
        }
        self.mode = RecordMode::Idle;
        self.start_ms = None;
        true
    }

    /// The capture record for a datagram received at `now_ms` while
    /// recording: its offset is the time since the first recorded datagram.
    /// Returns `None` when not recording.
    pub fn record_bytes_for(&mut self, now_ms: u64, encrypted: &[u8]) -> (r: Option<Vec<u8>>)
        requires
            encrypted@.len() <= u32::MAX,
        ensures
            old(self).mode != RecordMode::Recording ==> r is None && final(self).start_ms == old(
                self,
            ).start_ms,
            old(self).mode == RecordMode::Recording ==> {
                let start = match old(self).start_ms {
                    Some(s) => s,
                    None => now_ms,
                };
                &&& final(self).start_ms == Some(start)
                &&& r is Some
                &&& r.unwrap()@ == record_bytes(
                    (if now_ms >= start { (now_ms - start) as u64 } else { 0 }),
                    encrypted@,
                )
            },
            final(self).mode == old(self).mode,
            final(self).frames == old(self).frames,
            final(self).path == old(self).path,
    {
        if self.mode != RecordMode::Recording {
            return None;
        }
        let start = match self.start_ms {
            Some(s) => s,
            None => now_ms,
        };
        self.start_ms = Some(start);
        let offset_ms = now_ms.saturating_sub(start);
        Some(encode_record(offset_ms, encrypted))
    }

    /// One more record was written.
    pub fn frame_written(&mut self)
        ensures
            final(self).frames == (if old(self).frames < u64::MAX {
                (old(self).frames + 1) as u64
            } else {
                u64::MAX
            }),
            final(self).mode == old(self).mode,
            final(self).start_ms == old(self).start_ms,
            final(self).path == old(self).path,
    {
        self.frames = self.frames.saturating_add(1);
    }
}

impl Default for RecordState {
    fn default() -> (r: RecordState)
        ensures
            r.mode == RecordMode::Idle,
            r.path is None,
            r.start_ms is None,
            r.frames == 0,
    {
        RecordState::new()
    }
}

/// What a status query of the recorder answers.
pub fn record_status_snapshot(state: &RecordState) -> (r: RecordStatusResponse)
    ensures
        r.mode@ == (match state.mode {
            RecordMode::Idle => "idle"@,
            RecordMode::Armed => "armed"@,
            RecordMode::Recording => "recording"@,
        }),
        r.active == (state.mode == RecordMode::Recording),
        r.armed == (state.mode == RecordMode::Armed),
        r.frames == state.frames,
        r.path is Some <==> state.path is Some,
        state.path is Some ==> r.path.unwrap()@ == state.path.unwrap()@,
{
    let path = match &state.path {
        Some(p) => Some(p.clone()),
        None => None,
    };
    RecordStatusResponse {
        mode: state.mode.as_str(),
        active: state.mode == RecordMode::Recording,
        armed: state.mode == RecordMode::Armed,
        path,
        frames: state.frames,
    }
}

} // verus!
