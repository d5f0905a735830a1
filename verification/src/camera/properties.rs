use std::collections::HashMap;

use vstd::prelude::*;

use super::data::{PropInfoValue, PtpData, PtpPropInfo, PtpValue};
use super::interface::SonyDevicePropertyCode;

verus! {

broadcast use vstd::std_specs::hash::group_hash_axioms;

/// Whether `code` names a known camera property.
pub open spec fn is_known_property(code: u16) -> bool {
    SonyDevicePropertyCode::from_code(code) is Some
}

/// The property table after the reported properties `props` are entered in
/// order into `m`: each known property replaces the entry of its code, and
/// unknown codes are skipped.
pub open spec fn merged(m: Map<u16, PropInfoValue>, props: Seq<PropInfoValue>) -> Map<
    u16,
    PropInfoValue,
>
    decreases props.len(),
{
    if props.len() == 0 {
        m
    } else {
        let before = merged(m, props.drop_last());
        let p = props.last();
        if is_known_property(p.property_code) {
            before.insert(p.property_code, p)
        } else {
            before
        }
    }
}

/// What changed while `props` were entered in order into `m`: for each known
/// property whose value was new or differed from the one in the table at that
/// moment, the new value and the one it replaced. A later report of a code
/// replaces the change recorded for an earlier one, unless the later report
/// changed nothing.
pub open spec fn changes(m: Map<u16, PropInfoValue>, props: Seq<PropInfoValue>) -> Map<
    u16,
    (PtpValue, Option<PtpValue>),
>
    decreases props.len(),
{
    if props.len() == 0 {
        Map::empty()
    } else {
        let before = changes(m, props.drop_last());
        let table = merged(m, props.drop_last());
        let p = props.last();
        if !is_known_property(p.property_code) {
            before
        } else if table.contains_key(p.property_code) {
            if table[p.property_code].current != p.current {
                before.insert(p.property_code, (p.current, Some(table[p.property_code].current)))
            } else {
                before
            }
        } else {
            before.insert(p.property_code, (p.current, None))
        }
    }
}

/// The views of a list of reported properties.
pub open spec fn prop_values(props: Seq<PtpPropInfo>) -> Seq<PropInfoValue> {
    props.map_values(|p: PtpPropInfo| p@)
}

/// The camera's properties as last reported, by property code.
#[derive(Debug)]
pub struct CameraProperties {
    map: HashMap<u16, PtpPropInfo>,
}

/// A change in the value of a property: the new value and, if the property
/// was known before, the old one.
#[derive(Debug)]
pub struct PropertyChange {
    pub new: PtpData,
    pub old: Option<PtpData>,
}

/// The mathematical value of a `PropertyChange`.
pub open spec fn change_value(c: PropertyChange) -> (PtpValue, Option<PtpValue>) {
    (
        c.new@,
        match c.old {
            Some(o) => Some(o@),
            None => None,
        },
    )
}

impl CameraProperties {
    /// The table, by property code.
    pub closed spec fn view(&self) -> Map<u16, PropInfoValue> {
        self.map@.map_values(|p: PtpPropInfo| p@)
    }

    /// Every entry is a known property filed under its own code.
    pub closed spec fn wf(&self) -> bool {
        forall|k: u16| #[trigger]
            self.map@.contains_key(k) ==> is_known_property(k) && self.map@[k].property_code == k
    }

    /// Every entry of a well-formed table is a known property filed under its
    /// own code.
    pub proof fn lemma_wf(&self)
        requires
            self.wf(),
        ensures
            forall|k: u16| #[trigger]
                self.view().contains_key(k) ==> is_known_property(k) && self.view()[k].property_code
                    == k,
    {
    }

    /// An empty table.
    pub fn new() -> (r: CameraProperties)
        ensures
            r.wf(),
            r.view() == Map::<u16, PropInfoValue>::empty(),
    {
        let r = CameraProperties { map: HashMap::new() };
        assert(r.view() =~= Map::<u16, PropInfoValue>::empty());
        r
    }

    /// The number of properties in the table.
    pub fn len(&self) -> (r: usize)
        ensures
            r == self.view().len(),
    {
        proof {
            assert(self.view().dom() =~= self.map@.dom());
        }
        self.map.len()
    }

    /// The stored information about a property, if the camera has reported it.
    pub fn get(&self, code: SonyDevicePropertyCode) -> (r: Option<PtpPropInfo>)
        ensures
            match r {
                Some(p) => self.view().contains_key(code.code()) && p@ == self.view()[code.code()],
                None => !self.view().contains_key(code.code()),
            },
    {
        let k = code.to_u16();
        match self.map.get(&k) {
            Some(p) => Some(p.copy()),
            None => None,
        }
    }

    /// The current value of a property, if the camera has reported it.
    pub fn get_value(&self, code: SonyDevicePropertyCode) -> (r: Option<PtpData>)
        ensures
            match r {
                Some(v) => self.view().contains_key(code.code()) && v@ == self.view()[code.code()].current,
                None => !self.view().contains_key(code.code()),
            },
    {
        let k = code.to_u16();
        match self.map.get(&k) {
            Some(p) => Some(p.current.copy()),
            None => None,
        }
    }

    /// Whether setting `code` to `value` would change nothing: the camera has
    /// reported the property and its current value is `value`. Setting such a
    /// property sends nothing to the camera.
    pub fn already_set(&self, code: SonyDevicePropertyCode, value: &PtpData) -> (r: bool)
        ensures
            r == (self.view().contains_key(code.code()) && self.view()[code.code()].current
                == value@),
    {
        let k = code.to_u16();
        match self.map.get(&k) {
            Some(p) => p.current.same_as(value),
            None => false,
        }
    }

    /// Enters reported properties in order, replacing the entry of each known
    /// code and skipping unknown codes.
    pub fn merge(&mut self, props: &Vec<PtpPropInfo>)
        requires
            old(self).wf(),
        ensures
            final(self).wf(),
            final(self).view() == merged(old(self).view(), prop_values(props@)),
    {
        let mut i: usize = 0;
        while i < props.len()
            invariant
                i <= props.len(),
                self.wf(),
                self.view() == merged(
                    old(self).view(),
                    prop_values(props@).subrange(0, i as int),
                ),
            decreases props.len() - i,
        {
            let p = props[i].copy();
            let code = p.property_code;
            let ghost before = self.view();
            proof {
                assert(prop_values(props@).subrange(0, i + 1).drop_last() =~= prop_values(
                    props@,
                ).subrange(0, i as int));
            }
            match SonyDevicePropertyCode::from_u16(code) {
                Some(_) => {
                    let ghost pv = p@;
                    self.map.insert(code, p);
                    proof {
                        assert(self.view() =~= before.insert(code, pv));
                    }
                },
                None => {},
            }
            i = i + 1;
        }
        proof {
            assert(prop_values(props@).subrange(0, props@.len() as int) =~= prop_values(props@));
        }
    }

    /// Enters reported properties in order, like `merge`, and returns what
    /// changed, by property code.
    pub fn merge_tracking_changes(&mut self, props: &Vec<PtpPropInfo>) -> (r: HashMap<
        u16,
        PropertyChange,
    >)
        requires
            old(self).wf(),
        ensures
            final(self).wf(),
            final(self).view() == merged(old(self).view(), prop_values(props@)),
            r@.map_values(|c: PropertyChange| change_value(c)) == changes(
                old(self).view(),
                prop_values(props@),
            ),
    {
        let mut out: HashMap<u16, PropertyChange> = HashMap::new();
        let mut i: usize = 0;
        proof {
            assert(out@.map_values(|c: PropertyChange| change_value(c)) =~= Map::empty());
        }
        while i < props.len()
            invariant
                i <= props.len(),
                self.wf(),
                self.view() == merged(
                    old(self).view(),
                    prop_values(props@).subrange(0, i as int),
                ),
                out@.map_values(|c: PropertyChange| change_value(c)) == changes(
                    old(self).view(),
                    prop_values(props@).subrange(0, i as int),
                ),
            decreases props.len() - i,
        {
            let p = props[i].copy();
            let code = p.property_code;
            let ghost before = self.view();
            let ghost before_out = out@.map_values(|c: PropertyChange| change_value(c));
            proof {
                assert(prop_values(props@).subrange(0, i + 1).drop_last() =~= prop_values(
                    props@,
                ).subrange(0, i as int));
                assert(prop_values(props@).subrange(0, i + 1).last() == p@);
            }
            match SonyDevicePropertyCode::from_u16(code) {
                Some(_) => {
                    let ghost pv = p@;
                    let new_value = p.current.copy();
                    let replaced = self.map.insert(code, p);
                    proof {
                        assert(self.view() =~= before.insert(code, pv));
                    }
                    match replaced {
                        Some(o) => {
                            proof {
                                assert(before.contains_key(code) && before[code] == o@);
                            }
                            if !new_value.same_as(&o.current) {
                                let ghost cv = (new_value@, Some(o.current@));
                                out.insert(code, PropertyChange { new: new_value, old: Some(o.current) });
                                proof {
                                    assert(out@.map_values(|c: PropertyChange| change_value(c))
                                        =~= before_out.insert(code, cv));
                                }
                            }
                        },
                        None => {
                            let ghost cv = (new_value@, None::<PtpValue>);
                            out.insert(code, PropertyChange { new: new_value, old: None });
                            proof {
                                assert(out@.map_values(|c: PropertyChange| change_value(c))
                                    =~= before_out.insert(code, cv));
                            }
                        },
                    }
                },
                None => {},
            }
            i = i + 1;
        }
        proof {
            assert(prop_values(props@).subrange(0, props@.len() as int) =~= prop_values(props@));
        }
        out
    }

    /// A table that holds the known properties among `props`, a later report
    /// of a code replacing an earlier one.
    pub fn from_reports(props: &Vec<PtpPropInfo>) -> (r: CameraProperties)
        ensures
            r.wf(),
            r.view() == merged(Map::empty(), prop_values(props@)),
    {
        let mut r = CameraProperties::new();
        r.merge(props);
        r
    }
}

/// The last report of property `k` among `props`, if there is one.
pub open spec fn last_report(props: Seq<PropInfoValue>, k: u16) -> Option<PropInfoValue>
    decreases props.len(),
{
    if props.len() == 0 {
        None
    } else if props.last().property_code == k {
        Some(props.last())
    } else {
        last_report(props.drop_last(), k)
    }
}

/// After a batch of reports is entered, a known property holds its last
/// report in the batch, or, if the batch does not report it, what it held
/// before; an unknown code is never entered.
pub proof fn lemma_merged_lookup(m: Map<u16, PropInfoValue>, props: Seq<PropInfoValue>, k: u16)
    ensures
        !is_known_property(k) ==> (merged(m, props).contains_key(k) == m.contains_key(k) && (
        m.contains_key(k) ==> merged(m, props)[k] == m[k])),
        is_known_property(k) ==> match last_report(props, k) {
            Some(p) => merged(m, props).contains_key(k) && merged(m, props)[k] == p,
            None => merged(m, props).contains_key(k) == m.contains_key(k) && (m.contains_key(k)
                ==> merged(m, props)[k] == m[k]),
        },
    decreases props.len(),
{
    if props.len() > 0 {
        lemma_merged_lookup(m, props.drop_last(), k);
    }
}

/// Entering two batches of reports one after the other is entering the two
/// batches as one.
pub proof fn lemma_merged_concat(
    m: Map<u16, PropInfoValue>,
    a: Seq<PropInfoValue>,
    b: Seq<PropInfoValue>,
)
    ensures
        merged(merged(m, a), b) == merged(m, a + b),
    decreases b.len(),
{
    if b.len() == 0 {
        assert(a + b =~= a);
    } else {
        lemma_merged_concat(m, a, b.drop_last());
        assert((a + b).drop_last() =~= a + b.drop_last());
        assert((a + b).last() == b.last());
    }
}

/// Entering a batch that reports only values already in the table changes
/// nothing and records no change.
pub proof fn lemma_no_change_when_same(m: Map<u16, PropInfoValue>, props: Seq<PropInfoValue>)
    requires
        forall|i: int|
            0 <= i < props.len() && is_known_property(#[trigger] props[i].property_code) ==> (
            m.contains_key(props[i].property_code) && m[props[i].property_code] == props[i]),
    ensures
        merged(m, props) == m,
        changes(m, props) == Map::<u16, (PtpValue, Option<PtpValue>)>::empty(),
    decreases props.len(),
{
    if props.len() > 0 {
        let init = props.drop_last();
        assert forall|i: int|
            0 <= i < init.len() && is_known_property(#[trigger] init[i].property_code) implies (
            m.contains_key(init[i].property_code) && m[init[i].property_code] == init[i]) by {
            assert(init[i] == props[i]);
        }
        lemma_no_change_when_same(m, init);
        let p = props.last();
        assert(props[props.len() - 1] == p);
        if is_known_property(p.property_code) {
            assert(m.insert(p.property_code, p) =~= m);
        }
    }
}

} // verus!
