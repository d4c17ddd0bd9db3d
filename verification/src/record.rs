//! DNS records as the provider returns them.

use vstd::prelude::*;
use crate::search::{first_where, is_first_where, lemma_first_where_absent, lemma_first_where_found};

verus! {

/// One DNS record of the zone.
#[derive(Clone, Debug, PartialEq, Eq)]
pub struct DnsRecord {
    /// What the record points to: for an address record, the IP as text.
    pub content: String,
    /// The provider's identifier of the record.
    pub id: String,
    /// The record type, such as `A`.
    pub record_type: String,
    /// The host name.
    pub name: String,
    /// Time to live, in seconds.
    pub ttl: u32,
}

/// A `DnsRecord` as a mathematical value: its texts as sequences of characters.
pub ghost struct DnsRecordView {
    pub content: Seq<char>,
    pub id: Seq<char>,
    pub record_type: Seq<char>,
    pub name: Seq<char>,
    pub ttl: u32,
}

impl View for DnsRecord {
    type V = DnsRecordView;

    open spec fn view(&self) -> DnsRecordView {
        DnsRecordView {
            content: self.content@,
            id: self.id@,
            record_type: self.record_type@,
            name: self.name@,
            ttl: self.ttl,
        }
    }
}

/// The views of the records, in their order.
pub open spec fn records_view(records: Seq<DnsRecord>) -> Seq<DnsRecordView> {
    records.map_values(|r: DnsRecord| r@)
}

/// The records whose name is `name`, exactly.
pub open spec fn named(name: Seq<char>) -> spec_fn(DnsRecordView) -> bool {
    |r: DnsRecordView| r.name == name
}

/// `r` with its content replaced by `content`, and nothing else changed.
pub open spec fn with_content(r: DnsRecordView, content: Seq<char>) -> DnsRecordView {
    DnsRecordView { content, ..r }
}

/// Position of the first record whose name is `name`.
pub fn find_record(records: &Vec<DnsRecord>, name: &String) -> (res: Option<usize>)
    ensures
        match res {
            Some(i) => first_where(records_view(records@), named(name@)) == Some(i as int),
            None => first_where(records_view(records@), named(name@)) is None,
        },
{
    let ghost s = records_view(records@);
    let mut i: usize = 0;
    while i < records.len()
        invariant
            i <= records.len(),
            s == records_view(records@),
            forall|j: int| 0 <= j < i ==> !named(name@)(#[trigger] s[j]),
        decreases records.len() - i,
    {
        if records[i].name == *name {
            proof {
                assert(is_first_where(s, named(name@), i as int));
                lemma_first_where_found(s, named(name@), i as int);
            }
            return Some(i);
        }
        i += 1;
    }
    proof {
        lemma_first_where_absent(s, named(name@));
    }
    None
}

impl DnsRecord {
    /// A copy of this record that points to `content`.
    pub fn pointing_to(&self, content: &String) -> (res: DnsRecord)
        ensures
            res@ == with_content(self@, content@),
    {
        DnsRecord {
            content: content.clone(),
            id: self.id.clone(),
            record_type: self.record_type.clone(),
            name: self.name.clone(),
            ttl: self.ttl,
        }
    }
}

} // verus!
