//! What the overlay shows: dropped files waiting to be picked up, the
//! counters behind its widgets, and the phase of the background colour cycle.
use vstd::prelude::*;

verus! {

/// The sum of all bytes, each read as an unsigned number.
pub open spec fn byte_total(s: Seq<u8>) -> int
    decreases s.len(),
{
    if s.len() == 0 {
        0
    } else {
        byte_total(s.drop_last()) + s.last() as int
    }
}

proof fn lemma_byte_total_bound(s: Seq<u8>)
    ensures
        0 <= byte_total(s) <= 255 * s.len(),
    decreases s.len(),
{
    if s.len() > 0 {
        lemma_byte_total_bound(s.drop_last());
    }
}

/// Sums the bytes of `bytes`.
pub fn byte_sum(bytes: &[u8]) -> (r: usize)
    requires
        255 * bytes@.len() <= usize::MAX,
    ensures
        r as int == byte_total(bytes@),
{
    let mut sum: usize = 0;
    let mut i: usize = 0;
    while i < bytes.len()
        invariant
            i <= bytes@.len(),
            255 * bytes@.len() <= usize::MAX,
            sum as int == byte_total(bytes@.subrange(0, i as int)),
        decreases bytes@.len() - i,
    {
        proof {
            lemma_byte_total_bound(bytes@.subrange(0, i as int));
            assert(bytes@.subrange(0, i + 1).drop_last() =~= bytes@.subrange(0, i as int));
        }
        sum = sum + bytes[i] as usize;
        i = i + 1;
    }
    assert(bytes@.subrange(0, i as int) =~= bytes@);
    sum
}

/// Length and byte sum of a dropped file's contents.
#[derive(Clone, Copy, Debug, PartialEq, Eq, Structural)]
pub struct DropStats {
    pub len: usize,
    pub sum: usize,
}

/// Takes the contents of a dropped file and reports its length and the sum
/// of its bytes.
pub fn on_file_drop(bytes: &[u8]) -> (r: DropStats)
    requires
        255 * bytes@.len() <= usize::MAX,
    ensures
        r.len == bytes@.len(),
        r.sum as int == byte_total(bytes@),
{
    DropStats { len: bytes.len(), sum: byte_sum(bytes) }
}

/// Files that were dropped on the application and not picked up yet, in the
/// order they came.
pub struct FileIoManager {
    files: Vec<(String, Vec<u8>)>,
}

impl View for FileIoManager {
    type V = Seq<(String, Vec<u8>)>;

    closed spec fn view(&self) -> Seq<(String, Vec<u8>)> {
        self.files@
    }
}

impl FileIoManager {
    pub fn new() -> (r: FileIoManager)
        ensures
            r@ == Seq::<(String, Vec<u8>)>::empty(),
    {
        FileIoManager { files: Vec::new() }
    }

    /// Queues a file after those already waiting.
    pub fn add_file(&mut self, name: String, bytes: Vec<u8>)
        ensures
            final(self)@ == old(self)@.push((name, bytes)),
    {
        self.files.push((name, bytes));
    }

    /// Hands out every waiting file, in order, and empties the queue; `None`
    /// when none is waiting.
    pub fn extract_files(&mut self) -> (r: Option<Vec<(String, Vec<u8>)>>)
        ensures
            old(self)@.len() == 0 ==> r is None && final(self)@ == old(self)@,
            old(self)@.len() > 0 ==> r is Some && r.unwrap()@ == old(self)@
                && final(self)@ == Seq::<(String, Vec<u8>)>::empty(),
    {
        if self.files.len() == 0 {
            None
        } else {
            let mut extracted: Vec<(String, Vec<u8>)> = Vec::new();
            std::mem::swap(&mut self.files, &mut extracted);
            Some(extracted)
        }
    }
}

/// A file shown in the overlay's table, with the sum of its bytes.
pub struct DroppedFile {
    pub name: String,
    pub bytes: Vec<u8>,
    pub sum: usize,
}

/// The caption of the overlay's button, after so many clicks.
#[derive(Clone, Copy, Debug, PartialEq, Eq, Structural)]
pub enum ButtonCaption {
    Dare,
    DoneIt,
    DoneItTwice,
    DoneItMany(usize),
}

pub open spec fn caption_for(clicks: usize) -> ButtonCaption {
    if clicks == 0 {
        ButtonCaption::Dare
    } else if clicks == 1 {
        ButtonCaption::DoneIt
    } else if clicks == 2 {
        ButtonCaption::DoneItTwice
    } else {
        ButtonCaption::DoneItMany(clicks)
    }
}

/// The counters and the file table behind the overlay's widgets.
pub struct UiState {
    pub num_clicks: usize,
    pub checked: bool,
    /// How many times the checkbox went from unchecked to checked.
    pub num_checks: usize,
    pub dropped_files: Vec<DroppedFile>,
}

impl UiState {
    pub fn new() -> (r: UiState)
        ensures
            r.num_clicks == 0,
            !r.checked,
            r.num_checks == 0,
            r.dropped_files@.len() == 0,
    {
        UiState { num_clicks: 0, checked: false, num_checks: 0, dropped_files: Vec::new() }
    }

    pub fn button_caption(&self) -> (r: ButtonCaption)
        ensures
            r == caption_for(self.num_clicks),
    {
        if self.num_clicks == 0 {
            ButtonCaption::Dare
        } else if self.num_clicks == 1 {
            ButtonCaption::DoneIt
        } else if self.num_clicks == 2 {
            ButtonCaption::DoneItTwice
        } else {
            ButtonCaption::DoneItMany(self.num_clicks)
        }
    }

    /// The button was clicked.
    pub fn click(&mut self)
        requires
            old(self).num_clicks < usize::MAX,
        ensures
            final(self).num_clicks == old(self).num_clicks + 1,
            final(self).checked == old(self).checked,
            final(self).num_checks == old(self).num_checks,
            final(self).dropped_files == old(self).dropped_files,
    {
        self.num_clicks = self.num_clicks + 1;
    }

    /// The checkbox now shows `checked`; a change to checked is counted.
    pub fn set_checked(&mut self, checked: bool)
        requires
            old(self).num_checks < usize::MAX,
        ensures
            final(self).checked == checked,
            final(self).num_checks == old(self).num_checks + if checked && !old(self).checked {
                1int
            } else {
                0int
            },
            final(self).num_clicks == old(self).num_clicks,
            final(self).dropped_files == old(self).dropped_files,
    {
        if checked && !self.checked {
            self.num_checks = self.num_checks + 1;
        }
        self.checked = checked;
    }

    /// Adds a dropped file to the table, with the sum of its bytes.
    pub fn drop_file(&mut self, name: String, bytes: Vec<u8>)
        requires
            255 * bytes@.len() <= usize::MAX,
        ensures
            final(self).dropped_files@.len() == old(self).dropped_files@.len() + 1,
            forall|i: int|
                0 <= i < old(self).dropped_files@.len() ==> final(self).dropped_files@[i]
                    == old(self).dropped_files@[i],
            final(self).dropped_files@.last().name == name,
            final(self).dropped_files@.last().bytes == bytes,
            final(self).dropped_files@.last().sum as int == byte_total(bytes@),
            final(self).num_clicks == old(self).num_clicks,
            final(self).checked == old(self).checked,
            final(self).num_checks == old(self).num_checks,
    {
        let sum = byte_sum(bytes.as_slice());
        self.dropped_files.push(DroppedFile { name, bytes, sum });
    }
}

/// Length of one background colour cycle, in milliseconds.
pub const COLOR_CYCLE_MILLIS: i64 = 5000;

/// Where in the background colour cycle a moment lies: the time since
/// `start_millis`, taken without sign, modulo the cycle length.
pub fn color_phase_millis(now_millis: i64, start_millis: i64) -> (r: u32)
    ensures
        r as int == (if now_millis >= start_millis {
            now_millis - start_millis
        } else {
            start_millis - now_millis
        }) % (COLOR_CYCLE_MILLIS as int),
{
    let d: i128 = if now_millis >= start_millis {
        now_millis as i128 - start_millis as i128
    } else {
        start_millis as i128 - now_millis as i128
    };
    (d % (COLOR_CYCLE_MILLIS as i128)) as u32
}

} // verus!
