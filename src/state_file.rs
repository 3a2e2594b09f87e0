use vstd::prelude::*;
use crate::window_state::{RestorePlan, SizePolicy, WindowState, restore_plan, restore_plan_spec};

verus! {

#[verifier::external_type_specification]
#[verifier::external_body]
pub struct ExJsonError(serde_json::Error);

/// What a member of a JSON object holds, as far as a saved window state
/// reads it: `null`, a number (with its value where it is an integer that
/// fits in `i64`), or anything else.
#[derive(PartialEq, Eq, Structural, Clone, Copy, Debug)]
pub enum JsonScalar {
    Null,
    Number(Option<i64>),
    Other,
}

impl DeepView for JsonScalar {
    type V = JsonScalar;

    open spec fn deep_view(&self) -> JsonScalar {
        *self
    }
}

/// Why the state file could not be written or read back.
#[derive(PartialEq, Eq, Structural, Clone, Copy, Debug)]
pub enum StoreError {
    /// The JSON writer failed; it does not on a window state, so
    /// `encode_window_state` never returns this.
    Encode,
    /// The text is not a JSON object whose recorded fields are integers of
    /// the right range (or `null`).
    Parse,
}

impl StoreError {
    /// A human-readable description of the error.
    pub fn message(&self) -> (r: &'static str)
        ensures
            *self == StoreError::Encode ==> r@ == "failed to encode window state as JSON"@,
            *self == StoreError::Parse ==> r@ == "malformed window state JSON"@,
    {
        match self {
            StoreError::Encode => "failed to encode window state as JSON",
            StoreError::Parse => "malformed window state JSON",
        }
    }
}

/// The JSON text that pretty-printing an object with these members, in this
/// order, gives (`None` written as `null`).
pub uninterp spec fn pretty_json(entries: Seq<(Seq<char>, Option<i64>)>) -> Seq<char>;

/// The members of the JSON object that `text` holds, in order, or `None`
/// where `text` is not one (`null` reads as an object without members). A
/// key that occurs twice gives one member, at its first place, with the
/// later value.
pub uninterp spec fn parsed_json_object(text: Seq<char>) -> Option<Seq<(Seq<char>, JsonScalar)>>;

/// How members written from `Option<i64>` values read back: `None` as
/// `null`, `Some(n)` as the number `n`.
pub open spec fn read_back(entries: Seq<(Seq<char>, Option<i64>)>) -> Seq<(Seq<char>, JsonScalar)> {
    entries.map_values(
        |e: (Seq<char>, Option<i64>)|
            (e.0, match e.1 {
                Some(n) => JsonScalar::Number(Some(n)),
                None => JsonScalar::Null,
            }),
    )
}

/// No two members share a key.
pub open spec fn distinct_keys(entries: Seq<(Seq<char>, Option<i64>)>) -> bool {
    forall|i: int, j: int| 0 <= i < j < entries.len() ==> entries[i].0 != entries[j].0
}

/// Relies on serde_json::to_string_pretty, applied to a serde_json::Value
/// object built from the entries in their order (serde_json's
/// `preserve_order` keeps it): the text depends on the entries alone, and
/// `None` is written as `null`. Serializing a `Value` with string keys into
/// memory does not fail. serde_json reads its own output back: integers as
/// the same integers, `null` as `null`, and members in order where no two
/// share a key.
#[verifier::external_body]
fn pretty_json_object(entries: &Vec<(String, Option<i64>)>) -> (r: Result<String, serde_json::Error>)
    ensures
        r is Ok,
        r matches Ok(t) ==> t@ == pretty_json(entries.deep_view()),
        r matches Ok(t) ==> (distinct_keys(entries.deep_view()) ==> parsed_json_object(t@) == Some(
            read_back(entries.deep_view()),
        )),
{
    let map: serde_json::Map<String, serde_json::Value> = entries.iter().map(
        |(k, v)| (k.clone(), serde_json::Value::from(*v)),
    ).collect();
    serde_json::to_string_pretty(&serde_json::Value::Object(map))
}

/// Relies on serde_json::from_str into a serde_json::Map, and on
/// serde_json::Number::as_i64: succeeds exactly when the text holds one JSON
/// object (or `null`), whose members come back in order (a repeated key
/// once, at its first place, with its last value), each value reduced to a
/// `JsonScalar`. The result depends on the text alone.
#[verifier::external_body]
fn parse_json_object(text: &str) -> (r: Result<Vec<(String, JsonScalar)>, serde_json::Error>)
    ensures
        match r {
            Ok(v) => parsed_json_object(text@) == Some(v.deep_view()),
            Err(_) => parsed_json_object(text@) is None,
        },
{
    let map = serde_json::from_str::<serde_json::Map<String, serde_json::Value>>(text)?;
    Ok(map.into_iter().map(|(k, v)| match v {
        serde_json::Value::Null => (k, JsonScalar::Null),
        serde_json::Value::Number(n) => (k, JsonScalar::Number(n.as_i64())),
        _ => (k, JsonScalar::Other),
    }).collect())
}

pub open spec fn key_x() -> Seq<char> {
    seq!['x']
}

pub open spec fn key_y() -> Seq<char> {
    seq!['y']
}

pub open spec fn key_width() -> Seq<char> {
    seq!['w', 'i', 'd', 't', 'h']
}

pub open spec fn key_height() -> Seq<char> {
    seq!['h', 'e', 'i', 'g', 'h', 't']
}

/// The members a saved state is written as: its four fields, in order, an
/// absent one as `null`.
pub open spec fn state_entries_spec(s: WindowState) -> Seq<(Seq<char>, Option<i64>)> {
    seq![
        (key_x(), match s.x { Some(v) => Some(v as i64), None => None::<i64> }),
        (key_y(), match s.y { Some(v) => Some(v as i64), None => None::<i64> }),
        (key_width(), match s.width { Some(v) => Some(v as i64), None => None::<i64> }),
        (key_height(), match s.height { Some(v) => Some(v as i64), None => None::<i64> }),
    ]
}

/// The value of the first member named `key`, if any.
pub open spec fn field_value(entries: Seq<(Seq<char>, JsonScalar)>, key: Seq<char>) -> Option<
    JsonScalar,
>
    decreases entries.len(),
{
    if entries.len() == 0 {
        None
    } else if entries[0].0 == key {
        Some(entries[0].1)
    } else {
        field_value(entries.drop_first(), key)
    }
}

/// An integer field in `[lo, hi]`: absent or `null` reads as not recorded;
/// any other value is malformed.
pub open spec fn read_int(v: Option<JsonScalar>, lo: int, hi: int) -> Result<Option<int>, StoreError> {
    match v {
        None => Ok(None),
        Some(JsonScalar::Null) => Ok(None),
        Some(JsonScalar::Number(Some(n))) => if lo <= n <= hi {
            Ok(Some(n as int))
        } else {
            Err(StoreError::Parse)
        },
        _ => Err(StoreError::Parse),
    }
}

pub open spec fn read_i32_spec(entries: Seq<(Seq<char>, JsonScalar)>, key: Seq<char>) -> Result<
    Option<i32>,
    StoreError,
> {
    match read_int(field_value(entries, key), i32::MIN as int, i32::MAX as int) {
        Ok(Some(n)) => Ok(Some(n as i32)),
        Ok(None) => Ok(None),
        Err(e) => Err(e),
    }
}

pub open spec fn read_u32_spec(entries: Seq<(Seq<char>, JsonScalar)>, key: Seq<char>) -> Result<
    Option<u32>,
    StoreError,
> {
    match read_int(field_value(entries, key), 0, u32::MAX as int) {
        Ok(Some(n)) => Ok(Some(n as u32)),
        Ok(None) => Ok(None),
        Err(e) => Err(e),
    }
}

/// The state that the members of a JSON object describe: each of the four
/// fields read independently; any malformed one makes the whole malformed.
pub open spec fn state_from_entries_spec(entries: Seq<(Seq<char>, JsonScalar)>) -> Result<
    WindowState,
    StoreError,
> {
    match (
        read_i32_spec(entries, key_x()),
        read_i32_spec(entries, key_y()),
        read_u32_spec(entries, key_width()),
        read_u32_spec(entries, key_height()),
    ) {
        (Ok(x), Ok(y), Ok(width), Ok(height)) => Ok(WindowState { x, y, width, height }),
        _ => Err(StoreError::Parse),
    }
}

fn find_field(entries: &Vec<(String, JsonScalar)>, key: &String) -> (r: Option<JsonScalar>)
    ensures
        r == field_value(entries.deep_view(), key@),
{
    let mut i: usize = 0;
    assert(entries.deep_view().subrange(0, entries.len() as int) =~= entries.deep_view());
    while i < entries.len()
        invariant
            0 <= i <= entries.len(),
            field_value(entries.deep_view(), key@) == field_value(
                entries.deep_view().subrange(i as int, entries.len() as int),
                key@,
            ),
        decreases entries.len() - i,
    {
        let ghost rest = entries.deep_view().subrange(i as int, entries.len() as int);
        assert(rest[0] == (entries[i as int].0@, entries[i as int].1));
        if entries[i].0 == *key {
            return Some(entries[i].1);
        }
        assert(rest.drop_first() =~= entries.deep_view().subrange(
            i + 1,
            entries.len() as int,
        ));
        i = i + 1;
    }
    None
}

fn read_i32_field(entries: &Vec<(String, JsonScalar)>, key: &String) -> (r: Result<
    Option<i32>,
    StoreError,
>)
    ensures
        r == read_i32_spec(entries.deep_view(), key@),
{
    match find_field(entries, key) {
        None | Some(JsonScalar::Null) => Ok(None),
        Some(JsonScalar::Number(Some(n))) => {
            if i32::MIN as i64 <= n && n <= i32::MAX as i64 {
                Ok(Some(n as i32))
            } else {
                Err(StoreError::Parse)
            }
        },
        _ => Err(StoreError::Parse),
    }
}

fn read_u32_field(entries: &Vec<(String, JsonScalar)>, key: &String) -> (r: Result<
    Option<u32>,
    StoreError,
>)
    ensures
        r == read_u32_spec(entries.deep_view(), key@),
{
    match find_field(entries, key) {
        None | Some(JsonScalar::Null) => Ok(None),
        Some(JsonScalar::Number(Some(n))) => {
            if 0 <= n && n <= u32::MAX as i64 {
                Ok(Some(n as u32))
            } else {
                Err(StoreError::Parse)
            }
        },
        _ => Err(StoreError::Parse),
    }
}

/// Reads a window state from the members of a parsed JSON object. Absent
/// and `null` fields are not recorded; a field that is not an integer of its
/// type's range makes the result `StoreError::Parse`. Other members are
/// ignored.
pub fn state_from_entries(entries: &Vec<(String, JsonScalar)>) -> (r: Result<
    WindowState,
    StoreError,
>)
    ensures
        r == state_from_entries_spec(entries.deep_view()),
{
    proof {
        reveal_strlit("x");
        reveal_strlit("y");
        reveal_strlit("width");
        reveal_strlit("height");
    }
    let kx = "x".to_owned();
    let ky = "y".to_owned();
    let kw = "width".to_owned();
    let kh = "height".to_owned();
    assert(kx@ =~= key_x() && ky@ =~= key_y() && kw@ =~= key_width() && kh@ =~= key_height());
    let x = read_i32_field(entries, &kx);
    let y = read_i32_field(entries, &ky);
    let width = read_u32_field(entries, &kw);
    let height = read_u32_field(entries, &kh);
    match (x, y, width, height) {
        (Ok(x), Ok(y), Ok(width), Ok(height)) => Ok(WindowState { x, y, width, height }),
        _ => Err(StoreError::Parse),
    }
}

/// The members a window state is written as: `x`, `y`, `width`, `height`,
/// in that order, a field that is not recorded as `null`.
pub fn state_entries(state: &WindowState) -> (r: Vec<(String, Option<i64>)>)
    ensures
        r.deep_view() == state_entries_spec(*state),
{
    proof {
        reveal_strlit("x");
        reveal_strlit("y");
        reveal_strlit("width");
        reveal_strlit("height");
    }
    let x = match state.x {
        Some(v) => Some(v as i64),
        None => None,
    };
    let y = match state.y {
        Some(v) => Some(v as i64),
        None => None,
    };
    let width = match state.width {
        Some(v) => Some(v as i64),
        None => None,
    };
    let height = match state.height {
        Some(v) => Some(v as i64),
        None => None,
    };
    let kx = "x".to_owned();
    let ky = "y".to_owned();
    let kw = "width".to_owned();
    let kh = "height".to_owned();
    assert(kx@ =~= key_x() && ky@ =~= key_y() && kw@ =~= key_width() && kh@ =~= key_height());
    let r = vec![(kx, x), (ky, y), (kw, width), (kh, height)];
    let ghost spec_entries = state_entries_spec(*state);
    assert(r@.len() == 4);
    assert forall|i: int| 0 <= i < 4 implies r.deep_view()[i] == spec_entries[i] by {
        assert(r.deep_view()[i] == (r@[i].0@, r@[i].1.deep_view()));
    }
    assert(r.deep_view() =~= state_entries_spec(*state));
    r
}

/// The JSON text a window state is saved as: a pretty-printed object of its
/// four fields. Encoding always succeeds, and decoding the text gives the
/// same state back, field for field.
pub fn encode_window_state(state: &WindowState) -> (r: Result<String, StoreError>)
    ensures
        r is Ok,
        r matches Ok(t) ==> t@ == pretty_json(state_entries_spec(*state)),
        r matches Ok(t) ==> decode_text_spec(t@) == Ok::<WindowState, StoreError>(*state),
{
    let entries = state_entries(state);
    proof {
        lemma_keys_distinct();
        lemma_state_entries_round_trip(*state);
    }
    match pretty_json_object(&entries) {
        Ok(t) => Ok(t),
        Err(_) => Err(StoreError::Encode),
    }
}

/// The window state that saved JSON text holds: `StoreError::Parse` where
/// the text is not a JSON object, else what its members describe.
pub open spec fn decode_text_spec(text: Seq<char>) -> Result<WindowState, StoreError> {
    match parsed_json_object(text) {
        Some(entries) => state_from_entries_spec(entries),
        None => Err(StoreError::Parse),
    }
}

/// The window state that saved JSON text holds; `StoreError::Parse` where
/// the text is not a JSON object or a field is malformed.
pub fn decode_window_state(text: &str) -> (r: Result<WindowState, StoreError>)
    ensures
        r == decode_text_spec(text@),
{
    match parse_json_object(text) {
        Ok(entries) => state_from_entries(&entries),
        Err(_) => Err(StoreError::Parse),
    }
}

/// What restoring from the state file does. `contents` is the file's text,
/// or `None` where no file exists: then nothing is applied and the restore
/// succeeds. Otherwise the text is decoded and its plan follows
/// `restore_plan`.
pub fn restore_from_file(contents: Option<&str>, policy: SizePolicy) -> (r: Result<
    RestorePlan,
    StoreError,
>)
    ensures
        contents is None ==> r == Ok::<RestorePlan, StoreError>(
            RestorePlan { position: None, size: None },
        ),
        contents matches Some(text) ==> r == match decode_text_spec(text@) {
            Ok(state) => Ok(restore_plan_spec(state, policy)),
            Err(e) => Err(e),
        },
{
    match contents {
        None => Ok(RestorePlan::unchanged()),
        Some(text) => match decode_window_state(text) {
            Ok(state) => Ok(restore_plan(&state, policy)),
            Err(e) => Err(e),
        },
    }
}

proof fn lemma_keys_distinct()
    ensures
        key_x() != key_y() && key_x() != key_width() && key_x() != key_height(),
        key_y() != key_width() && key_y() != key_height(),
        key_width() != key_height(),
        forall|s: WindowState| #[trigger] distinct_keys(state_entries_spec(s)),
{
    assert(key_x()[0] != key_y()[0]);
    assert(key_x().len() != key_width().len() && key_x().len() != key_height().len());
    assert(key_y().len() != key_width().len() && key_y().len() != key_height().len());
    assert(key_width().len() != key_height().len());
}

/// Writing a window state as JSON members and reading those members back
/// gives the same state, field for field, whichever fields are recorded.
pub proof fn lemma_state_entries_round_trip(state: WindowState)
    ensures
        state_from_entries_spec(read_back(state_entries_spec(state))) == Ok::<
            WindowState,
            StoreError,
        >(state),
{
    let e = read_back(state_entries_spec(state));
    lemma_keys_distinct();
    let e1 = e.drop_first();
    let e2 = e1.drop_first();
    let e3 = e2.drop_first();
    assert(e.len() == 4 && e1.len() == 3 && e2.len() == 2 && e3.len() == 1);
    assert(e1[0] == e[1] && e2[0] == e[2] && e3[0] == e[3]);
    assert(field_value(e, key_x()) == Some(e[0].1));
    assert(field_value(e1, key_y()) == Some(e[1].1));
    assert(field_value(e, key_y()) == Some(e[1].1));
    assert(field_value(e2, key_width()) == Some(e[2].1));
    assert(field_value(e1, key_width()) == Some(e[2].1));
    assert(field_value(e, key_width()) == Some(e[2].1));
    assert(field_value(e3, key_height()) == Some(e[3].1));
    assert(field_value(e2, key_height()) == Some(e[3].1));
    assert(field_value(e1, key_height()) == Some(e[3].1));
    assert(field_value(e, key_height()) == Some(e[3].1));
}

} // verus!
