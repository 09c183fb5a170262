//! The samples that a tracking session collects, and the rule that turns a
//! raw device reading into one.

use vstd::prelude::*;

verus! {

/// Absolute screen coordinates of the pointer at the moment of a sample.
#[derive(Debug, Clone, Copy, PartialEq, Eq, Structural)]
pub struct MousePosition {
    pub x: i32,
    pub y: i32,
}

/// The names of the keys that were held down at the moment of a sample, in
/// the order in which they were reported. A name may occur more than once.
#[derive(Debug, PartialEq, Eq)]
pub struct KeyStrokes {
    pub keys: Vec<String>,
}

/// One timestamped observation of the pointer and the keyboard.
#[derive(Debug, PartialEq, Eq)]
pub struct TrackingData {
    pub date: String,
    pub mouse_position: Option<MousePosition>,
    pub key_strokes: Option<KeyStrokes>,
}

/// What a sample says, as mathematical values.
pub struct SampleView {
    pub date: Seq<char>,
    pub pointer: Option<(int, int)>,
    pub keys: Option<Seq<Seq<char>>>,
}

impl View for MousePosition {
    type V = (int, int);

    open spec fn view(&self) -> (int, int) {
        (self.x as int, self.y as int)
    }
}

impl View for KeyStrokes {
    type V = Seq<Seq<char>>;

    open spec fn view(&self) -> Seq<Seq<char>> {
        self.keys.deep_view()
    }
}

impl View for TrackingData {
    type V = SampleView;

    open spec fn view(&self) -> SampleView {
        SampleView {
            date: self.date@,
            pointer: match self.mouse_position {
                Some(p) => Some(p@),
                None => None,
            },
            keys: match self.key_strokes {
                Some(k) => Some(k@),
                None => None,
            },
        }
    }
}

/// The pointer part of a sample for raw coordinates `(x, y)`: a reading with
/// a zero coordinate counts as no reading.
pub open spec fn pointer_of(x: int, y: int) -> Option<(int, int)> {
    if x != 0 && y != 0 {
        Some((x, y))
    } else {
        None
    }
}

/// The keyboard part of a sample for the reported key names: an empty report
/// counts as no reading.
pub open spec fn keys_of(names: Seq<Seq<char>>) -> Option<Seq<Seq<char>>> {
    if names.len() > 0 {
        Some(names)
    } else {
        None
    }
}

/// Whether a sample can come from a device reading: a recorded pointer has
/// no zero coordinate, and recorded key strokes name at least one key.
pub open spec fn is_reading(sample: SampleView) -> bool {
    &&& sample.pointer matches Some((x, y)) ==> x != 0 && y != 0
    &&& sample.keys matches Some(names) ==> names.len() > 0
}

/// The sample for a timestamp and a raw device reading.
pub open spec fn sample_of(date: Seq<char>, x: int, y: int, names: Seq<Seq<char>>) -> SampleView {
    SampleView { date, pointer: pointer_of(x, y), keys: keys_of(names) }
}

/// A pointer is recorded exactly when both raw coordinates are nonzero, and
/// then with those coordinates.
pub proof fn lemma_pointer_recorded(date: Seq<char>, x: int, y: int, names: Seq<Seq<char>>)
    ensures
        sample_of(date, x, y, names).pointer is Some <==> x != 0 && y != 0,
        sample_of(date, x, y, names).pointer matches Some(p) ==> p == (x, y),
{
}

/// For raw coordinates of which either both or none are zero, a pointer is
/// recorded if and only if at least one coordinate is nonzero, and none is
/// recorded exactly when both are zero.
pub proof fn lemma_pointer_recorded_iff_off_origin(
    date: Seq<char>,
    x: int,
    y: int,
    names: Seq<Seq<char>>,
)
    requires
        (x == 0) == (y == 0),
    ensures
        sample_of(date, x, y, names).pointer is Some <==> x != 0 || y != 0,
        sample_of(date, x, y, names).pointer is None <==> x == 0 && y == 0,
{
}

/// Key strokes are recorded if and only if at least one key is reported as
/// pressed, and then they are the reported names, in the reported order.
pub proof fn lemma_keys_recorded_iff_pressed(
    date: Seq<char>,
    x: int,
    y: int,
    names: Seq<Seq<char>>,
)
    ensures
        sample_of(date, x, y, names).keys is Some <==> names.len() > 0,
        sample_of(date, x, y, names).keys matches Some(recorded) ==> recorded == names,
{
}

/// Every sample that is built from a reading can come from a reading.
pub proof fn lemma_sample_is_reading(date: Seq<char>, x: int, y: int, names: Seq<Seq<char>>)
    ensures
        is_reading(sample_of(date, x, y, names)),
{
}

/// A copy of a list of key names.
fn copy_names(names: &Vec<String>) -> (copy: Vec<String>)
    ensures
        copy.deep_view() == names.deep_view(),
{
    let mut copy: Vec<String> = Vec::new();
    let mut i: usize = 0;
    while i < names.len()
        invariant
            i <= names.len(),
            copy.len() == i,
            forall|j: int| 0 <= j < i ==> copy[j]@ == names[j]@,
        decreases names.len() - i,
    {
        copy.push(names[i].clone());
        i += 1;
    }
    assert(copy.deep_view() =~= names.deep_view());
    copy
}

impl Clone for KeyStrokes {
    fn clone(&self) -> (copy: Self)
        ensures
            copy@ == self@,
    {
        KeyStrokes { keys: copy_names(&self.keys) }
    }
}

impl Clone for TrackingData {
    fn clone(&self) -> (copy: Self)
        ensures
            copy@ == self@,
    {
        let key_strokes = match &self.key_strokes {
            Some(k) => Some(k.clone()),
            None => None,
        };
        TrackingData { date: self.date.clone(), mouse_position: self.mouse_position, key_strokes }
    }
}

impl MousePosition {
    /// The position recorded for raw coordinates, if they count as a reading.
    pub fn from_coords(x: i32, y: i32) -> (position: Option<MousePosition>)
        ensures
            position is Some <==> x != 0 && y != 0,
            position matches Some(p) ==> p.x == x && p.y == y,
    {
        if x != 0 && y != 0 {
            Some(MousePosition { x, y })
        } else {
            None
        }
    }
}

impl KeyStrokes {
    /// The key strokes recorded for a report of pressed keys, if there are any.
    pub fn from_names(keys: Vec<String>) -> (strokes: Option<KeyStrokes>)
        ensures
            strokes is Some <==> keys.len() > 0,
            strokes matches Some(k) ==> k.keys == keys,
    {
        if keys.len() > 0 {
            Some(KeyStrokes { keys })
        } else {
            None
        }
    }
}

impl TrackingData {
    /// Builds the sample for a timestamp and a raw device reading. The
    /// pointer is recorded only if both coordinates are nonzero, the keys
    /// only if at least one is pressed.
    pub fn from_reading(date: String, x: i32, y: i32, keys: Vec<String>) -> (sample: TrackingData)
        ensures
            sample@ == sample_of(date@, x as int, y as int, keys.deep_view()),
            is_reading(sample@),
            sample.date == date,
            sample.mouse_position is Some <==> x != 0 && y != 0,
            sample.key_strokes is Some <==> keys.len() > 0,
    {
        let mouse_position = MousePosition::from_coords(x, y);
        let key_strokes = KeyStrokes::from_names(keys);
        TrackingData { date, mouse_position, key_strokes }
    }
}

} // verus!
