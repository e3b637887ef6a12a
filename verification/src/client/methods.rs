//! Refreshing the client's list of model methods: the list reply empties the
//! kept list and sends one read per usable method; each read that comes back
//! adds that method with its data.

use vstd::prelude::*;

use super::access::{first_op, kept, method_ops, ops_of};
use super::{ClientState, MethodPayload, Prop};
use crate::ec::MethodData;
use crate::ipc::{Method, RetVal};
use crate::models::Method as ModelMethod;

verus! {

/// A read sent for one listed method, with the entry to keep once its data
/// comes back, and whether it is the read for the list's last method.
#[derive(Debug)]
pub struct PendingRead {
    pub payload: MethodPayload,
    pub call: Method<'static>,
    pub last: bool,
}

/// The places of the usable methods among the first `n` of `list`, in order.
pub open spec fn kept_places(list: Seq<ModelMethod>, n: int) -> Seq<int>
    decreases n,
{
    if n <= 0 {
        Seq::empty()
    } else if kept(ops_of(list[n - 1])) {
        kept_places(list, n - 1).push(n - 1)
    } else {
        kept_places(list, n - 1)
    }
}

/// `p` is the read for method `m`: kept under its names, with a bit cleared
/// until its data comes, driven by its first read and first write operation,
/// and read with that read operation.
pub open spec fn reads_method(p: PendingRead, m: ModelMethod, last: bool) -> bool {
    let read_op = first_op(ops_of(m), true).unwrap();
    let write_op = first_op(ops_of(m), false).unwrap();
    &&& p.payload.name@ == m.name@
    &&& p.payload.method@ == m.method@
    &&& p.payload.data == MethodData::Bit(false)
    &&& p.payload.read_op == read_op
    &&& p.payload.write_op == write_op
    &&& p.call == (Method::MethodRead { method: m.method, op: read_op })
    &&& p.last == last
}

/// Every usable method has a read and a write operation.
pub open spec fn list_usable(list: Seq<ModelMethod>) -> bool {
    forall|i: int|
        0 <= i < list.len() && kept(ops_of(#[trigger] list[i])) ==> first_op(ops_of(list[i]), true) is Some
            && first_op(ops_of(list[i]), false) is Some
}

impl ClientState {
    /// Takes in the reply to the method-list call: the kept list is emptied,
    /// and one read is made for each method that can be both read and
    /// written, in list order.
    pub fn begin_method_list(&mut self, ret: RetVal) -> (r: Vec<PendingRead>)
        requires
            ret matches RetVal::Methods(list) && list_usable(list@),
        ensures
            final(self).methods@ == Seq::<MethodPayload>::empty(),
            (ClientState { methods: final(self).methods, ..*old(self) }) == *final(self),
            ret matches RetVal::Methods(list) && {
                let places = kept_places(list@, list@.len() as int);
                &&& r@.len() == places.len()
                &&& forall|k: int|
                    0 <= k < places.len() ==> reads_method(
                        #[trigger] r@[k],
                        list@[places[k]],
                        places[k] == list@.len() - 1,
                    )
            },
    {
        self.methods = Vec::new();
        let list = match ret {
            RetVal::Methods(list) => list,
            _ => Vec::new(),
        };
        let mut r: Vec<PendingRead> = Vec::new();
        let n = list.len();
        let mut i: usize = 0;
        while i < n
            invariant
                i <= n,
                n == list@.len(),
                list_usable(list@),
                r@.len() == kept_places(list@, i as int).len(),
                forall|k: int|
                    0 <= k < r@.len() ==> reads_method(
                        #[trigger] r@[k],
                        list@[kept_places(list@, i as int)[k]],
                        kept_places(list@, i as int)[k] == list@.len() - 1,
                    ),
            decreases n - i,
        {
            let m = &list[i];
            match method_ops(m) {
                Some((read_op, write_op)) => {
                    let p = PendingRead {
                        payload: MethodPayload {
                            name: m.name.to_owned(),
                            method: m.method.to_owned(),
                            data: MethodData::Bit(false),
                            read_op,
                            write_op,
                        },
                        call: Method::MethodRead { method: m.method, op: read_op },
                        last: i == n - 1,
                    };
                    r.push(p);
                },
                None => {},
            }
            i = i + 1;
        }
        r
    }

    /// Takes in what came back for a pending read: its data, or `None` where
    /// the read failed. Data is kept with the method; the read for the
    /// list's last method reports the list as changed either way.
    pub fn method_read_done(&mut self, pending: PendingRead, data: Option<MethodData>) -> (changed: Vec<Prop>)
        ensures
            match data {
                Some(d) => final(self).methods@ == old(self).methods@.push(
                    MethodPayload { data: d, ..pending.payload },
                ),
                None => final(self).methods@ == old(self).methods@,
            },
            (ClientState { methods: final(self).methods, ..*old(self) }) == *final(self),
            changed@ == if pending.last { seq![Prop::Methods] } else { Seq::<Prop>::empty() },
    {
        let last = pending.last;
        match data {
            Some(d) => {
                let mut p = pending.payload;
                p.data = d;
                self.methods.push(p);
            },
            None => {},
        }
        if last {
            let r = vec![Prop::Methods];
            r
        } else {
            Vec::new()
        }
    }
}

} // verus!
