//! Captive-portal DNS: while the controller runs its own access point, every query is
//! answered with the controller's address, 192.168.4.1.
use vstd::prelude::*;

verus! {

/// The answer record appended to every query: a pointer to the question name, type A,
/// class IN, a 60-second lifetime and the address 192.168.4.1.
pub open spec fn answer_record() -> Seq<u8> {
    seq![0xc0u8, 0x0c, 0x00, 0x01, 0x00, 0x01, 0x00, 0x00, 0x00, 0x3c, 0x00, 0x04, 192, 168, 4, 1]
}

/// The reply to a DNS query: the query with the response flags (0x8180) and an answer
/// count of one, followed by the answer record; `None` for a packet shorter than a header.
pub open spec fn spec_dns_reply(query: Seq<u8>) -> Option<Seq<u8>> {
    if query.len() < 12 {
        None
    } else {
        Some(query.update(2, 0x81).update(3, 0x80).update(6, 0x00).update(7, 0x01) + answer_record())
    }
}

/// Builds the reply to a DNS query.
pub fn dns_reply(query: &[u8]) -> (r: Option<Vec<u8>>)
    ensures
        match r {
            Some(v) => spec_dns_reply(query@) == Some(v@),
            None => spec_dns_reply(query@) is None,
        },
{
    if query.len() < 12 {
        return None;
    }
    let mut response: Vec<u8> = Vec::new();
    let mut i: usize = 0;
    while i < query.len()
        invariant
            i <= query@.len(),
            response@ == query@.take(i as int),
        decreases query@.len() - i,
    {
        response.push(query[i]);
        assert(response@ =~= query@.take(i + 1));
        i = i + 1;
    }
    assert(query@.take(query@.len() as int) =~= query@);
    response.set(2, 0x81);
    response.set(3, 0x80);
    response.set(6, 0x00);
    response.set(7, 0x01);
    let record: [u8; 16] = [
        0xc0, 0x0c, 0x00, 0x01, 0x00, 0x01, 0x00, 0x00, 0x00, 0x3c, 0x00, 0x04, 192, 168, 4, 1,
    ];
    let ghost head = response@;
    let mut j: usize = 0;
    while j < 16
        invariant
            j <= 16,
            record@ == answer_record(),
            response@ == head + record@.take(j as int),
        decreases 16 - j,
    {
        response.push(record[j]);
        assert(response@ =~= head + record@.take(j + 1));
        j = j + 1;
    }
    assert(record@.take(16) =~= record@);
    assert(response@ =~= spec_dns_reply(query@).unwrap());
    Some(response)
}

/// Every query of at least a header's twelve bytes is answered, and nothing shorter: the
/// reply is the query with bytes 2-3 set to the response flags 0x81 0x80 and bytes 6-7 to
/// an answer count of one, every other byte of the query kept, followed by sixteen bytes
/// that end in the address 192.168.4.1.
pub proof fn law_dns_reply(query: Seq<u8>)
    ensures
        spec_dns_reply(query) is Some <==> query.len() >= 12,
        spec_dns_reply(query) matches Some(r) ==> {
            &&& r.len() == query.len() + 16
            &&& r[2] == 0x81 && r[3] == 0x80 && r[6] == 0x00 && r[7] == 0x01
            &&& forall|i: int|
                0 <= i < query.len() && i != 2 && i != 3 && i != 6 && i != 7 ==> #[trigger] r[i]
                    == query[i]
            &&& r[query.len() + 12int] == 192 && r[query.len() + 13int] == 168
            &&& r[query.len() + 14int] == 4 && r[query.len() + 15int] == 1
        },
{
}

} // verus!
