//! Writing a model method from the client: which call a value from the
//! user interface makes, and what the client keeps once the daemon took it.

use vstd::prelude::*;

use super::{ClientState, MethodPayload};
use crate::ec::MethodData;
use crate::fw::{Curve6, Curve7};
use crate::models::MethodOp;
use crate::text::str_eq;

verus! {

/// A value handed in by the user interface, as far as a method write reads
/// it: an array holds a number or nothing usable in each place.
#[derive(Debug, Clone)]
pub enum UiValue {
    Bool(bool),
    Number(u32),
    Array(Vec<Option<u32>>),
    Other,
}

/// What writing a method with a value comes to.
#[derive(Debug)]
pub enum WritePlan {
    /// No method of that name is listed.
    NotFound,
    /// The value is not of the kind the method writes.
    WrongKind,
    /// A number does not fit in a byte.
    TooLarge { value: u32 },
    /// The method already holds the data; no call is made.
    Unchanged,
    /// The call to make.
    Call { op: MethodOp, data: MethodData },
}

/// Two method data are the same.
pub open spec fn same_data(a: MethodData, b: MethodData) -> bool {
    match (a, b) {
        (MethodData::Bit(x), MethodData::Bit(y)) => x == y,
        (MethodData::Byte(x), MethodData::Byte(y)) => x == y,
        (MethodData::Range(u), MethodData::Range(v)) => u@ == v@,
        _ => false,
    }
}

fn bytes_equal(u: &Vec<u8>, v: &Vec<u8>) -> (r: bool)
    ensures
        r == (u@ == v@),
{
    if u.len() != v.len() {
        return false;
    }
    let mut i: usize = 0;
    while i < u.len()
        invariant
            u@.len() == v@.len(),
            i <= u@.len(),
            forall|j: int| 0 <= j < i ==> u@[j] == v@[j],
        decreases u@.len() - i,
    {
        if u[i] != v[i] {
            assert(u@[i as int] != v@[i as int]);
            return false;
        }
        i = i + 1;
    }
    assert(u@ =~= v@);
    true
}

fn data_equal(a: &MethodData, b: &MethodData) -> (r: bool)
    ensures
        r == same_data(*a, *b),
{
    match (a, b) {
        (MethodData::Bit(x), MethodData::Bit(y)) => *x == *y,
        (MethodData::Byte(x), MethodData::Byte(y)) => *x == *y,
        (MethodData::Range(u), MethodData::Range(v)) => bytes_equal(u, v),
        _ => false,
    }
}

/// A copy of `d`.
pub fn copy_data(d: &MethodData) -> (r: MethodData)
    ensures
        same_data(r, *d),
{
    match d {
        MethodData::Bit(b) => MethodData::Bit(*b),
        MethodData::Byte(b) => MethodData::Byte(*b),
        MethodData::Range(v) => {
            let mut w: Vec<u8> = Vec::new();
            let mut i: usize = 0;
            while i < v.len()
                invariant
                    i <= v@.len(),
                    w@ == v@.subrange(0, i as int),
                decreases v@.len() - i,
            {
                w.push(v[i]);
                i = i + 1;
                assert(w@ =~= v@.subrange(0, i as int));
            }
            assert(v@.subrange(0, v@.len() as int) =~= v@);
            MethodData::Range(w)
        },
    }
}

/// The first listed method called `name`.
pub open spec fn payload_index(ms: Seq<MethodPayload>, name: Seq<char>) -> Option<int>
    decreases ms.len(),
{
    if ms.len() == 0 {
        None
    } else if ms[0].method@ == name {
        Some(0)
    } else {
        match payload_index(ms.subrange(1, ms.len() as int), name) {
            Some(i) => Some(i + 1),
            None => None,
        }
    }
}

proof fn lemma_payload_index(ms: Seq<MethodPayload>, name: Seq<char>)
    ensures
        payload_index(ms, name) matches Some(i) ==> 0 <= i < ms.len() && ms[i].method@ == name,
    decreases ms.len(),
{
    if ms.len() > 0 && ms[0].method@ != name {
        lemma_payload_index(ms.subrange(1, ms.len() as int), name);
    }
}

fn find_payload(ms: &Vec<MethodPayload>, name: &str) -> (r: Option<usize>)
    ensures
        r matches Some(i) ==> payload_index(ms@, name@) == Some(i as int),
        r is None ==> payload_index(ms@, name@) is None,
{
    proof {
        lemma_payload_index(ms@, name@);
    }
    let mut i: usize = 0;
    assert(ms@.subrange(0, ms@.len() as int) =~= ms@);
    while i < ms.len()
        invariant
            i <= ms@.len(),
            payload_index(ms@, name@) == match payload_index(ms@.subrange(i as int, ms@.len() as int), name@) {
                Some(j) => Some(j + i),
                None => None::<int>,
            },
        decreases ms@.len() - i,
    {
        let ghost rest = ms@.subrange(i as int, ms@.len() as int);
        assert(rest.subrange(1, rest.len() as int) =~= ms@.subrange(i + 1, ms@.len() as int));
        if str_eq(ms[i].method.as_str(), name) {
            return Some(i);
        }
        i = i + 1;
    }
    None
}

/// The bytes of an array value, or the first place that is not a byte:
/// `Err(None)` for a place without a number, `Err(Some(n))` for a number `n`
/// above 255.
pub open spec fn array_bytes(a: Seq<Option<u32>>) -> Result<Seq<u8>, Option<u32>>
    decreases a.len(),
{
    if a.len() == 0 {
        Ok(Seq::empty())
    } else {
        match array_bytes(a.drop_last()) {
            Err(e) => Err(e),
            Ok(b) => match a.last() {
                None => Err(None),
                Some(n) => if n > 255 {
                    Err(Some(n))
                } else {
                    Ok(b.push(n as u8))
                },
            },
        }
    }
}

fn to_bytes(a: &Vec<Option<u32>>) -> (r: Result<Vec<u8>, Option<u32>>)
    ensures
        match array_bytes(a@) {
            Ok(b) => r matches Ok(v) && v@ == b,
            Err(e) => r == Err::<Vec<u8>, Option<u32>>(e),
        },
{
    let mut out: Vec<u8> = Vec::new();
    let mut i: usize = 0;
    while i < a.len()
        invariant
            i <= a@.len(),
            array_bytes(a@.subrange(0, i as int)) == Ok::<Seq<u8>, Option<u32>>(out@),
        decreases a@.len() - i,
    {
        assert(a@.subrange(0, i + 1).drop_last() =~= a@.subrange(0, i as int));
        match a[i] {
            None => {
                proof {
                    lemma_array_bytes_prefix(a@, i as int + 1);
                }
                return Err(None);
            },
            Some(n) => {
                if n > 255 {
                    proof {
                        lemma_array_bytes_prefix(a@, i as int + 1);
                    }
                    return Err(Some(n));
                }
                out.push(n as u8);
            },
        }
        i = i + 1;
    }
    assert(a@.subrange(0, a@.len() as int) =~= a@);
    Ok(out)
}

/// A failing prefix makes the whole array fail the same way.
proof fn lemma_array_bytes_prefix(a: Seq<Option<u32>>, k: int)
    requires
        0 <= k <= a.len(),
        array_bytes(a.subrange(0, k)) is Err,
    ensures
        array_bytes(a) == array_bytes(a.subrange(0, k)),
    decreases a.len() - k,
{
    if k < a.len() {
        assert(a.subrange(0, k + 1).drop_last() =~= a.subrange(0, k));
        lemma_array_bytes_prefix(a, k + 1);
    } else {
        assert(a.subrange(0, k) =~= a);
    }
}

/// An array value converts to bytes exactly when every place holds a number
/// of at most 255, and byte `i` is then the number at place `i`.
pub proof fn lemma_array_bytes(a: Seq<Option<u32>>)
    ensures
        array_bytes(a) is Ok <==> forall|i: int| 0 <= i < a.len() ==> (#[trigger] a[i] matches Some(n) && n <= 255),
        array_bytes(a) matches Ok(b) ==> b.len() == a.len() && forall|i: int|
            0 <= i < a.len() ==> #[trigger] a[i] == Some(b[i] as u32),
    decreases a.len(),
{
    if a.len() > 0 {
        let init = a.drop_last();
        let n = a.len() - 1;
        lemma_array_bytes(init);
        assert forall|i: int| 0 <= i < init.len() implies #[trigger] init[i] == a[i] by {}
        match array_bytes(init) {
            Err(_) => {
                let j = choose|j: int| 0 <= j < init.len() && !(#[trigger] init[j] matches Some(m) && m <= 255);
                assert(init[j] == a[j]);
            },
            Ok(b) => {
                match a[n] {
                    None => {},
                    Some(m) => {
                        if m <= 255 {
                            let c = b.push(m as u8);
                            assert(array_bytes(a) == Ok::<Seq<u8>, Option<u32>>(c));
                            assert forall|i: int| 0 <= i < a.len() implies (#[trigger] a[i] matches Some(x) && x <= 255) by {
                                if i < n {
                                    assert(init[i] == a[i]);
                                }
                            }
                            assert forall|i: int| 0 <= i < a.len() implies #[trigger] a[i] == Some(c[i] as u32) by {
                                if i < n {
                                    assert(init[i] == a[i]);
                                    assert(c[i] == b[i]);
                                }
                            }
                        }
                    },
                }
            },
        }
    }
}

/// The data that the write operation `op` takes from `v`, or why it refuses.
pub open spec fn write_data(op: MethodOp, v: UiValue) -> Result<MethodData, WritePlan> {
    match (op, v) {
        (MethodOp::WriteBit, UiValue::Bool(b)) => Ok(MethodData::Bit(b)),
        (MethodOp::Write, UiValue::Number(n)) => if n > 255 {
            Err(WritePlan::TooLarge { value: n })
        } else {
            Ok(MethodData::Byte(n as u8))
        },
        (MethodOp::WriteRange, UiValue::Array(a)) => match array_bytes(a@) {
            Ok(_) => Ok(MethodData::Range(arbitrary())),
            Err(None) => Err(WritePlan::WrongKind),
            Err(Some(n)) => Err(WritePlan::TooLarge { value: n }),
        },
        _ => Err(WritePlan::WrongKind),
    }
}

/// `d` is the data that `op` takes from `v`.
pub open spec fn takes(op: MethodOp, v: UiValue, d: MethodData) -> bool {
    match (op, v) {
        (MethodOp::WriteRange, UiValue::Array(a)) => array_bytes(a@) matches Ok(b) && d matches MethodData::Range(
            w,
        ) && w@ == b,
        _ => write_data(op, v) == Ok::<MethodData, WritePlan>(d),
    }
}

impl ClientState {
    /// Every listed method is written with a write operation.
    pub open spec fn writes_listed(self) -> bool {
        forall|i: int| 0 <= i < self.methods@.len() ==> (#[trigger] self.methods@[i]).write_op.spec_is_write()
    }

    /// What writing the method called `method` with `v` comes to.
    pub fn plan_method_write(&self, method: &str, v: &UiValue) -> (r: WritePlan)
        requires
            self.writes_listed(),
        ensures
            match payload_index(self.methods@, method@) {
                None => r is NotFound,
                Some(i) => {
                    let p = self.methods@[i];
                    match write_data(p.write_op, *v) {
                        Err(e) => r == e,
                        Ok(_) => exists|d: MethodData|
                            #![trigger takes(p.write_op, *v, d)]
                            takes(p.write_op, *v, d) && if same_data(d, p.data) {
                                r is Unchanged
                            } else {
                                r == (WritePlan::Call { op: p.write_op, data: d })
                            },
                    }
                },
            },
    {
        proof {
            lemma_payload_index(self.methods@, method@);
        }
        let i = match find_payload(&self.methods, method) {
            Some(i) => i,
            None => return WritePlan::NotFound,
        };
        let p = &self.methods[i];
        let op = p.write_op;
        let data = match (op, v) {
            (MethodOp::WriteBit, UiValue::Bool(b)) => MethodData::Bit(*b),
            (MethodOp::Write, UiValue::Number(n)) => {
                if *n > 255 {
                    return WritePlan::TooLarge { value: *n };
                }
                MethodData::Byte(*n as u8)
            },
            (MethodOp::WriteRange, UiValue::Array(a)) => match to_bytes(a) {
                Ok(b) => MethodData::Range(b),
                Err(None) => return WritePlan::WrongKind,
                Err(Some(n)) => return WritePlan::TooLarge { value: n },
            },
            _ => return WritePlan::WrongKind,
        };
        assert(takes(op, *v, data));
        if data_equal(&data, &p.data) {
            WritePlan::Unchanged
        } else {
            WritePlan::Call { op, data }
        }
    }

    /// Keeps `data` as the data of the method called `method`, once the
    /// daemon took the write.
    pub fn confirm_method_write(&mut self, method: &str, data: MethodData)
        ensures
            match payload_index(old(self).methods@, method@) {
                None => *final(self) == *old(self),
                Some(i) => final(self).methods@ == old(self).methods@.update(
                    i,
                    MethodPayload { data, ..old(self).methods@[i] },
                ) && (ClientState { methods: final(self).methods, ..*old(self) }) == *final(self),
            },
    {
        proof {
            lemma_payload_index(self.methods@, method@);
        }
        match find_payload(&self.methods, method) {
            Some(i) => {
                let old_p = &self.methods[i];
                let p = MethodPayload {
                    name: old_p.name.clone(),
                    method: old_p.method.clone(),
                    data,
                    read_op: old_p.read_op,
                    write_op: old_p.write_op,
                };
                self.methods.set(i, p);
            },
            None => {},
        }
    }
}

proof fn lemma_payload_index_update(ms: Seq<MethodPayload>, i: int, p: MethodPayload, name: Seq<char>)
    requires
        0 <= i < ms.len(),
        p.method == ms[i].method,
    ensures
        payload_index(ms.update(i, p), name) == payload_index(ms, name),
    decreases ms.len(),
{
    if ms.len() > 0 && i > 0 {
        assert(ms.update(i, p).subrange(1, ms.len() as int) =~= ms.subrange(1, ms.len() as int).update(i - 1, p));
        lemma_payload_index_update(ms.subrange(1, ms.len() as int), i - 1, p, name);
    } else if ms.len() > 0 {
        assert(ms.update(i, p).subrange(1, ms.len() as int) =~= ms.subrange(1, ms.len() as int));
    }
}

/// Once the daemon took a method write and the client kept its data, writing
/// the same value again makes no call: the method is still found, with the
/// same write operation, and holds data that the value gives.
pub proof fn lemma_write_then_unchanged(
    s: ClientState,
    i: int,
    method: Seq<char>,
    v: UiValue,
    d: MethodData,
    d2: MethodData,
)
    requires
        payload_index(s.methods@, method) == Some(i),
        takes(s.methods@[i].write_op, v, d),
        takes(s.methods@[i].write_op, v, d2),
    ensures
        ({
            let t = s.methods@.update(i, MethodPayload { data: d, ..s.methods@[i] });
            &&& payload_index(t, method) == Some(i)
            &&& t[i].write_op == s.methods@[i].write_op
            &&& same_data(d2, t[i].data)
        }),
{
    lemma_payload_index(s.methods@, method);
    lemma_payload_index_update(s.methods@, i, MethodPayload { data: d, ..s.methods@[i] }, method);
}

/// The first `n` places of an array value; places past its end hold
/// nothing usable.
pub open spec fn first_places(a: Seq<Option<u32>>, n: int) -> Seq<Option<u32>> {
    Seq::new(n as nat, |i: int| if i < a.len() { a[i] } else { None })
}

/// The first `n` places of `a`.
fn places(a: &Vec<Option<u32>>, n: usize) -> (r: Vec<Option<u32>>)
    ensures
        r@ == first_places(a@, n as int),
{
    let mut r: Vec<Option<u32>> = Vec::new();
    let mut i: usize = 0;
    while i < n
        invariant
            i <= n,
            r@ == first_places(a@, i as int),
        decreases n - i,
    {
        if i < a.len() {
            r.push(a[i]);
        } else {
            r.push(None);
        }
        i = i + 1;
        assert(r@ =~= first_places(a@, i as int));
    }
    r
}

/// The seven-point curve an array value gives: its first seven places, each
/// a byte; else the first place that is not (`None` for one without a
/// number, the number where it exceeds 255).
pub fn curve7_from_ui(a: &Vec<Option<u32>>) -> (r: Result<Curve7, Option<u32>>)
    ensures
        match array_bytes(first_places(a@, 7)) {
            Ok(b) => r == Ok::<Curve7, Option<u32>>(Curve7::spec_from_bytes(b)),
            Err(e) => r == Err::<Curve7, Option<u32>>(e),
        },
{
    let p = places(a, 7);
    proof {
        lemma_array_bytes_len(p@);
    }
    match to_bytes(&p) {
        Ok(b) => Ok(Curve7::from_bytes(b.as_slice())),
        Err(e) => Err(e),
    }
}

/// The six-point curve an array value gives, as for seven points.
pub fn curve6_from_ui(a: &Vec<Option<u32>>) -> (r: Result<Curve6, Option<u32>>)
    ensures
        match array_bytes(first_places(a@, 6)) {
            Ok(b) => r == Ok::<Curve6, Option<u32>>(Curve6::spec_from_bytes(b)),
            Err(e) => r == Err::<Curve6, Option<u32>>(e),
        },
{
    let p = places(a, 6);
    proof {
        lemma_array_bytes_len(p@);
    }
    match to_bytes(&p) {
        Ok(b) => Ok(Curve6::from_bytes(b.as_slice())),
        Err(e) => Err(e),
    }
}

proof fn lemma_array_bytes_len(a: Seq<Option<u32>>)
    ensures
        array_bytes(a) matches Ok(b) ==> b.len() == a.len(),
    decreases a.len(),
{
    if a.len() > 0 {
        lemma_array_bytes_len(a.drop_last());
    }
}

/// The bytes among the places of a saved array, in order; places without a
/// number, or with one above 255, are left out.
pub open spec fn kept_bytes(a: Seq<Option<u32>>) -> Seq<u8>
    decreases a.len(),
{
    if a.len() == 0 {
        Seq::empty()
    } else {
        match a.last() {
            Some(n) => if n <= 255 {
                kept_bytes(a.drop_last()).push(n as u8)
            } else {
                kept_bytes(a.drop_last())
            },
            None => kept_bytes(a.drop_last()),
        }
    }
}

/// `u` is the value a saved method value `v` is written back with: a flag
/// as is, a number cut to a byte, an array reduced to its bytes.
pub open spec fn resent(v: UiValue, u: UiValue) -> bool {
    match v {
        UiValue::Bool(b) => u == UiValue::Bool(b),
        UiValue::Number(n) => u == UiValue::Number(n % 256),
        UiValue::Array(a) => u matches UiValue::Array(x) && x@ == kept_bytes(a@).map_values(
            |b: u8| Some(b as u32),
        ),
        UiValue::Other => false,
    }
}

/// The last saved entry for the method called `name` whose value is usable.
pub open spec fn saved_entry(entries: Seq<(String, UiValue)>, name: Seq<char>) -> Option<int>
    decreases entries.len(),
{
    if entries.len() == 0 {
        None
    } else if entries.last().0@ == name && !(entries.last().1 is Other) {
        Some(entries.len() - 1)
    } else {
        saved_entry(entries.drop_last(), name)
    }
}

/// For the first `n` listed methods, in order, each one with a saved entry
/// and the place of that entry.
pub open spec fn write_places(ms: Seq<MethodPayload>, entries: Seq<(String, UiValue)>, n: int) -> Seq<(int, int)>
    decreases n,
{
    if n <= 0 {
        Seq::empty()
    } else {
        match saved_entry(entries, ms[n - 1].method@) {
            Some(e) => write_places(ms, entries, n - 1).push((n - 1, e)),
            None => write_places(ms, entries, n - 1),
        }
    }
}

proof fn lemma_saved_entry(entries: Seq<(String, UiValue)>, name: Seq<char>)
    ensures
        saved_entry(entries, name) matches Some(e) ==> 0 <= e < entries.len() && !(entries[e].1 is Other),
    decreases entries.len(),
{
    if entries.len() > 0 {
        lemma_saved_entry(entries.drop_last(), name);
    }
}

fn find_saved(entries: &Vec<(String, UiValue)>, name: &str) -> (r: Option<usize>)
    ensures
        r matches Some(e) ==> saved_entry(entries@, name@) == Some(e as int),
        r is None ==> saved_entry(entries@, name@) is None,
{
    let mut found: Option<usize> = None;
    let mut i: usize = 0;
    while i < entries.len()
        invariant
            i <= entries@.len(),
            found matches Some(e) ==> saved_entry(entries@.subrange(0, i as int), name@) == Some(e as int),
            found is None ==> saved_entry(entries@.subrange(0, i as int), name@) is None,
        decreases entries@.len() - i,
    {
        assert(entries@.subrange(0, i + 1).drop_last() =~= entries@.subrange(0, i as int));
        let usable = match &entries[i].1 {
            UiValue::Other => false,
            _ => true,
        };
        if usable && str_eq(entries[i].0.as_str(), name) {
            found = Some(i);
        }
        i = i + 1;
    }
    assert(entries@.subrange(0, entries@.len() as int) =~= entries@);
    found
}

/// The value to write back for the saved value `v`.
fn resend(v: &UiValue) -> (u: UiValue)
    ensures
        !(*v is Other) ==> resent(*v, u),
{
    match v {
        UiValue::Bool(b) => UiValue::Bool(*b),
        UiValue::Number(n) => UiValue::Number(*n % 256),
        UiValue::Array(a) => {
            let mut x: Vec<Option<u32>> = Vec::new();
            let mut i: usize = 0;
            while i < a.len()
                invariant
                    i <= a@.len(),
                    x@ == kept_bytes(a@.subrange(0, i as int)).map_values(|b: u8| Some(b as u32)),
                decreases a@.len() - i,
            {
                assert(a@.subrange(0, i + 1).drop_last() =~= a@.subrange(0, i as int));
                match a[i] {
                    Some(n) => {
                        if n <= 255 {
                            x.push(Some(n));
                            assert(x@ =~= kept_bytes(a@.subrange(0, i + 1)).map_values(|b: u8| Some(b as u32)));
                        }
                    },
                    None => {},
                }
                i = i + 1;
            }
            assert(a@.subrange(0, a@.len() as int) =~= a@);
            UiValue::Array(x)
        },
        UiValue::Other => UiValue::Other,
    }
}

impl ClientState {
    /// The method writes that a saved profile's method values come to once
    /// the method list is in: for each listed method, in order, that has a
    /// usable saved value (the last one saved under its name), its name and
    /// the value to write; each goes to `plan_method_write`.
    pub fn apply_methods(&self, entries: &Vec<(String, UiValue)>) -> (r: Vec<(String, UiValue)>)
        ensures
            ({
                let places = write_places(self.methods@, entries@, self.methods@.len() as int);
                &&& r@.len() == places.len()
                &&& forall|j: int|
                    0 <= j < places.len() ==> (#[trigger] r@[j]).0@ == self.methods@[places[j].0].method@
                        && resent(entries@[places[j].1].1, r@[j].1)
            }),
    {
        let mut r: Vec<(String, UiValue)> = Vec::new();
        let mut k: usize = 0;
        while k < self.methods.len()
            invariant
                k <= self.methods@.len(),
                r@.len() == write_places(self.methods@, entries@, k as int).len(),
                forall|j: int|
                    0 <= j < r@.len() ==> (#[trigger] r@[j]).0@ == self.methods@[write_places(self.methods@, entries@, k as int)[j].0].method@
                        && resent(entries@[write_places(self.methods@, entries@, k as int)[j].1].1, r@[j].1),
            decreases self.methods@.len() - k,
        {
            let p = &self.methods[k];
            proof {
                lemma_saved_entry(entries@, p.method@);
            }
            match find_saved(entries, p.method.as_str()) {
                Some(e) => {
                    let u = resend(&entries[e].1);
                    r.push((p.method.clone(), u));
                },
                None => {},
            }
            k = k + 1;
        }
        r
    }
}

} // verus!
