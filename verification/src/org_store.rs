//! An organization store held in memory, for when persistence is not
//! needed: organizations keyed by identifier, listed and fetched by service.

use vstd::prelude::*;

use crate::error::OrganizationStoreError;
use crate::text::clone_byte_vec;
use crate::text::clone_opt_string;
use crate::text::str_eq;
use vstd::pervasive::VecAdditionalExecFns;
use vstd::string::StringExecFns;

verus! {

/// An organization row.
pub struct Organization {
    pub org_id: String,
    pub name: String,
    pub address: String,
    pub metadata: Vec<u8>,
    pub start_commit_num: i64,
    pub end_commit_num: i64,
    pub service_id: Option<String>,
}

/// Mathematical model of an [`Organization`].
pub struct OrganizationV {
    pub org_id: Seq<char>,
    pub name: Seq<char>,
    pub address: Seq<char>,
    pub metadata: Seq<u8>,
    pub start_commit_num: i64,
    pub end_commit_num: i64,
    pub service_id: Option<Seq<char>>,
}

impl View for Organization {
    type V = OrganizationV;

    open spec fn view(&self) -> OrganizationV {
        OrganizationV {
            org_id: self.org_id@,
            name: self.name@,
            address: self.address@,
            metadata: self.metadata@,
            start_commit_num: self.start_commit_num,
            end_commit_num: self.end_commit_num,
            service_id: self.service_id.deep_view(),
        }
    }
}

impl DeepView for Organization {
    type V = OrganizationV;

    open spec fn deep_view(&self) -> OrganizationV {
        self.view()
    }
}

/// An exact copy of an organization row.
fn clone_organization(o: &Organization) -> (r: Organization)
    ensures
        r@ == o@,
{
    Organization {
        org_id: o.org_id.clone(),
        name: o.name.clone(),
        address: o.address.clone(),
        metadata: clone_byte_vec(&o.metadata),
        start_commit_num: o.start_commit_num,
        end_commit_num: o.end_commit_num,
        service_id: clone_opt_string(&o.service_id),
    }
}

/// Whether two optional service ids are the same.
fn opt_string_eq(a: &Option<String>, b: &Option<String>) -> (r: bool)
    ensures
        r == (a.deep_view() == b.deep_view()),
{
    match (a, b) {
        (Some(x), Some(y)) => str_eq(x.as_str(), y.as_str()),
        (None, None) => true,
        _ => false,
    }
}

/// The index of the first row at or after `from` with the given identifier.
pub open spec fn spec_org_index(orgs: Seq<OrganizationV>, org_id: Seq<char>, from: int) -> Option<
    int,
>
    decreases orgs.len() - from,
{
    if from < 0 || from >= orgs.len() {
        None
    } else if orgs[from].org_id == org_id {
        Some(from)
    } else {
        spec_org_index(orgs, org_id, from + 1)
    }
}

/// The store after taking one organization in: the row with its identifier
/// replaced, or the row appended when the identifier is new.
pub open spec fn spec_upsert(orgs: Seq<OrganizationV>, o: OrganizationV) -> Seq<OrganizationV> {
    match spec_org_index(orgs, o.org_id, 0) {
        Some(i) => orgs.update(i, o),
        None => orgs.push(o),
    }
}

/// The store after taking a list of organizations in, in list order.
pub open spec fn spec_add_all(
    orgs: Seq<OrganizationV>,
    added: Seq<OrganizationV>,
    from: int,
) -> Seq<OrganizationV>
    decreases added.len() - from,
{
    if from < 0 || from >= added.len() {
        orgs
    } else {
        spec_add_all(spec_upsert(orgs, added[from]), added, from + 1)
    }
}

/// The rows of one service, in store order, at or after `from`.
pub open spec fn spec_list_orgs(
    orgs: Seq<OrganizationV>,
    service_id: Option<Seq<char>>,
    from: int,
) -> Seq<OrganizationV>
    decreases orgs.len() - from,
{
    if from < 0 || from >= orgs.len() {
        Seq::empty()
    } else if orgs[from].service_id == service_id {
        seq![orgs[from]] + spec_list_orgs(orgs, service_id, from + 1)
    } else {
        spec_list_orgs(orgs, service_id, from + 1)
    }
}

/// The first row at or after `from` with the given service and identifier.
pub open spec fn spec_fetch_org(
    orgs: Seq<OrganizationV>,
    org_id: Seq<char>,
    service_id: Option<Seq<char>>,
    from: int,
) -> Option<OrganizationV>
    decreases orgs.len() - from,
{
    if from < 0 || from >= orgs.len() {
        None
    } else if orgs[from].service_id == service_id && orgs[from].org_id == org_id {
        Some(orgs[from])
    } else {
        spec_fetch_org(orgs, org_id, service_id, from + 1)
    }
}

/// An organization store held in memory.
pub struct MemoryOrganizationStore {
    pub orgs: Vec<Organization>,
}

impl MemoryOrganizationStore {
    /// The store's rows, as their models.
    pub open spec fn orgs_v(self) -> Seq<OrganizationV> {
        self.orgs.deep_view()
    }

    /// Each identifier names at most one row.
    pub open spec fn wf(self) -> bool {
        forall|i: int, j: int|
            0 <= i < j < self.orgs_v().len() ==> (#[trigger] self.orgs_v()[i]).org_id != (
            #[trigger] self.orgs_v()[j]).org_id
    }

    /// An empty store.
    pub fn new() -> (s: Self)
        ensures
            s.wf(),
            s.orgs_v() == Seq::<OrganizationV>::empty(),
    {
        let s = MemoryOrganizationStore { orgs: Vec::new() };
        proof {
            assert(s.orgs_v() =~= Seq::<OrganizationV>::empty());
        }
        s
    }

    /// Takes one organization in: replaces the row with its identifier, or
    /// appends it.
    fn upsert(&mut self, org: Organization)
        requires
            old(self).wf(),
        ensures
            final(self).wf(),
            final(self).orgs_v() == spec_upsert(old(self).orgs_v(), org@),
    {
        let ghost orgs0: Seq<OrganizationV> = self.orgs_v();
        let mut i: usize = 0;
        while i < self.orgs.len()
            invariant
                i <= self.orgs.len(),
                orgs0 == self.orgs_v(),
                orgs0 == old(self).orgs_v(),
                orgs0.len() == self.orgs@.len(),
                self.wf(),
                spec_org_index(orgs0, org@.org_id, 0) == spec_org_index(
                    orgs0,
                    org@.org_id,
                    i as int,
                ),
            decreases self.orgs.len() - i,
        {
            let same = {
                let existing = &self.orgs[i];
                proof {
                    assert(existing@ == orgs0[i as int]);
                }
                str_eq(existing.org_id.as_str(), org.org_id.as_str())
            };
            if same {
                proof {
                    assert(orgs0[i as int].org_id == org@.org_id);
                    assert(spec_org_index(orgs0, org@.org_id, i as int) == Some(i as int));
                }
                self.orgs.set(i, org);
                proof {
                    assert(self.orgs_v() =~= orgs0.update(i as int, org@));
                    assert forall|a: int, b: int|
                        0 <= a < b < self.orgs_v().len() implies (#[trigger] self.orgs_v()[a]).org_id
                        != (#[trigger] self.orgs_v()[b]).org_id by {
                        assert(orgs0[a].org_id != orgs0[b].org_id);
                        assert(orgs0[i as int].org_id == org@.org_id);
                    }
                }
                return ;
            }
            i = i + 1;
        }
        self.orgs.push(org);
        proof {
            assert(self.orgs_v() =~= orgs0.push(org@));
            assert(spec_org_index(orgs0, org@.org_id, orgs0.len() as int) is None);
            assert forall|a: int, b: int|
                0 <= a < b < self.orgs_v().len() implies (#[trigger] self.orgs_v()[a]).org_id != (
            #[trigger] self.orgs_v()[b]).org_id by {
                if b < orgs0.len() {
                    assert(orgs0[a].org_id != orgs0[b].org_id);
                } else {
                    lemma_org_index_none_means_absent(orgs0, org@.org_id, a);
                }
            }
        }
    }

    /// Takes a list of organizations in, in list order, each keyed by its
    /// identifier.
    pub fn add_organizations(&mut self, orgs: Vec<Organization>) -> (r: Result<
        (),
        OrganizationStoreError,
    >)
        requires
            old(self).wf(),
        ensures
            r is Ok,
            final(self).wf(),
            final(self).orgs_v() == spec_add_all(old(self).orgs_v(), orgs.deep_view(), 0),
    {
        let ghost added: Seq<OrganizationV> = orgs.deep_view();
        let ghost orgs0: Seq<OrganizationV> = self.orgs_v();
        let mut rest = orgs;
        proof {
            assert(rest.deep_view() =~= added.skip(0));
        }
        while rest.len() > 0
            invariant
                self.wf(),
                rest.len() <= added.len(),
                rest.deep_view() == added.skip(added.len() - rest.len()),
                spec_add_all(orgs0, added, 0) == spec_add_all(
                    self.orgs_v(),
                    added,
                    added.len() - rest.len(),
                ),
            decreases rest.len(),
        {
            let ghost done: int = added.len() - rest.len();
            let ghost rest_seq: Seq<Organization> = rest@;
            let ghost rest_dv: Seq<OrganizationV> = rest.deep_view();
            let org = rest.remove(0);
            proof {
                assert(org.deep_view() == rest_dv[0]);
                assert(rest_dv[0] == added.skip(done)[0]);
                assert(added.skip(done)[0] == added[done]);
                assert(rest@ =~= rest_seq.drop_first());
                assert forall|k: int| 0 <= k < rest@.len() implies rest.deep_view()[k] == added[done
                    + 1 + k] by {
                    assert(rest@[k] == rest_seq[k + 1]);
                    assert(rest_dv[k + 1] == rest_seq[k + 1].deep_view());
                    assert(rest_dv[k + 1] == added.skip(done)[k + 1]);
                }
                assert(rest.deep_view() =~= added.skip(done + 1));
            }
            self.upsert(org);
        }
        proof {
            assert(spec_add_all(self.orgs_v(), added, added.len() as int) == self.orgs_v());
        }
        Ok(())
    }

    /// Lists the rows of one service, in store order.
    pub fn list_organizations(&self, service_id: Option<String>) -> (r: Result<
        Vec<Organization>,
        OrganizationStoreError,
    >)
        ensures
            r matches Ok(v) && v.deep_view() == spec_list_orgs(
                self.orgs_v(),
                service_id.deep_view(),
                0,
            ),
    {
        let ghost orgs_v: Seq<OrganizationV> = self.orgs_v();
        let ghost sid: Option<Seq<char>> = service_id.deep_view();
        let mut out: Vec<Organization> = Vec::new();
        let mut i: usize = 0;
        proof {
            assert(out.deep_view() =~= Seq::<OrganizationV>::empty());
        }
        while i < self.orgs.len()
            invariant
                i <= self.orgs.len(),
                orgs_v == self.orgs_v(),
                orgs_v.len() == self.orgs@.len(),
                sid == service_id.deep_view(),
                out.deep_view() + spec_list_orgs(orgs_v, sid, i as int) == spec_list_orgs(
                    orgs_v,
                    sid,
                    0,
                ),
            decreases self.orgs.len() - i,
        {
            let o = &self.orgs[i];
            proof {
                assert(o@ == orgs_v[i as int]);
            }
            let ghost out_before: Seq<OrganizationV> = out.deep_view();
            if opt_string_eq(&o.service_id, &service_id) {
                out.push(clone_organization(o));
                proof {
                    assert(out.deep_view() =~= out_before.push(orgs_v[i as int]));
                    assert(out.deep_view() + spec_list_orgs(orgs_v, sid, i + 1) =~= spec_list_orgs(
                        orgs_v,
                        sid,
                        0,
                    ));
                }
            }
            i = i + 1;
        }
        proof {
            assert(spec_list_orgs(orgs_v, sid, orgs_v.len() as int) =~= Seq::<
                OrganizationV,
            >::empty());
            assert(out.deep_view() =~= spec_list_orgs(orgs_v, sid, 0));
        }
        Ok(out)
    }

    /// Shows the row of one service with the given identifier; answers a
    /// not-found error naming the identifier when there is none.
    pub fn fetch_organization(&self, org_id: &str, service_id: Option<String>) -> (r: Result<
        Option<Organization>,
        OrganizationStoreError,
    >)
        ensures
            match spec_fetch_org(self.orgs_v(), org_id@, service_id.deep_view(), 0) {
                Some(o) => r matches Ok(Some(x)) && x@ == o,
                None => r matches Err(e) && e matches OrganizationStoreError::NotFoundError(m) && m@
                    == "Organization with org_id "@ + org_id@ + " not found."@,
            },
    {
        let ghost orgs_v: Seq<OrganizationV> = self.orgs_v();
        let ghost sid: Option<Seq<char>> = service_id.deep_view();
        let mut i: usize = 0;
        while i < self.orgs.len()
            invariant
                i <= self.orgs.len(),
                orgs_v == self.orgs_v(),
                orgs_v.len() == self.orgs@.len(),
                sid == service_id.deep_view(),
                spec_fetch_org(orgs_v, org_id@, sid, 0) == spec_fetch_org(
                    orgs_v,
                    org_id@,
                    sid,
                    i as int,
                ),
            decreases self.orgs.len() - i,
        {
            let o = &self.orgs[i];
            proof {
                assert(o@ == orgs_v[i as int]);
            }
            if opt_string_eq(&o.service_id, &service_id) && str_eq(o.org_id.as_str(), org_id) {
                return Ok(Some(clone_organization(o)));
            }
            i = i + 1;
        }
        Err(
            OrganizationStoreError::NotFoundError(
                "Organization with org_id ".to_owned().concat(org_id).concat(" not found."),
            ),
        )
    }
}

proof fn lemma_org_index_none_means_absent(orgs: Seq<OrganizationV>, org_id: Seq<char>, a: int)
    requires
        spec_org_index(orgs, org_id, 0) is None,
        0 <= a < orgs.len(),
    ensures
        orgs[a].org_id != org_id,
{
    lemma_org_index_none_rec(orgs, org_id, 0, a);
}

proof fn lemma_org_index_none_rec(orgs: Seq<OrganizationV>, org_id: Seq<char>, from: int, a: int)
    requires
        spec_org_index(orgs, org_id, from) is None,
        from <= a < orgs.len(),
        0 <= from,
    ensures
        orgs[a].org_id != org_id,
    decreases a - from,
{
    if from < a {
        lemma_org_index_none_rec(orgs, org_id, from + 1, a);
    }
}

} // verus!
