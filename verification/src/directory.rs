//! The directory store: lookups over the fixed catalog of offices and
//! salespeople, and the seed data built once at startup.

use vstd::prelude::*;
use vstd::string::StringExecFns;

use crate::session::ChatState;
use crate::types::{Office, Salesperson};

verus! {

/// Some office in the catalog carries the identifier `id`.
pub open spec fn office_id_exists(offices: Seq<Office>, id: Seq<char>) -> bool {
    exists|i: int| 0 <= i < offices.len() && offices[i].id@ == id
}

/// `k` is the first position of an office with identifier `id`.
pub open spec fn is_first_office_index(offices: Seq<Office>, id: Seq<char>, k: int) -> bool {
    &&& 0 <= k < offices.len()
    &&& offices[k].id@ == id
    &&& forall|j: int| 0 <= j < k ==> offices[j].id@ != id
}

/// The salesperson belongs to the office and is free to take a chat.
pub open spec fn available_for(sp: Salesperson, office_id: Seq<char>) -> bool {
    sp.office_id@ == office_id && sp.is_available
}

/// Some salesperson of the office is free to take a chat.
pub open spec fn some_available(sps: Seq<Salesperson>, office_id: Seq<char>) -> bool {
    exists|i: int| 0 <= i < sps.len() && available_for(sps[i], office_id)
}

/// `k` is the first position, in catalog order, of an available salesperson
/// of the office.
pub open spec fn is_first_available_index(
    sps: Seq<Salesperson>,
    office_id: Seq<char>,
    k: int,
) -> bool {
    &&& 0 <= k < sps.len()
    &&& available_for(sps[k], office_id)
    &&& forall|j: int| 0 <= j < k ==> !available_for(sps[j], office_id)
}

/// Referential integrity: every salesperson's office identifier resolves to
/// an office of the catalog.
pub open spec fn directory_resolves(offices: Seq<Office>, sps: Seq<Salesperson>) -> bool {
    forall|i: int| 0 <= i < sps.len() ==> office_id_exists(offices, sps[i].office_id@)
}

/// Find the office with the given identifier.
pub fn find_office(offices: &Vec<Office>, id: &String) -> (r: Option<usize>)
    ensures
        match r {
            Some(k) => is_first_office_index(offices@, id@, k as int),
            None => !office_id_exists(offices@, id@),
        },
{
    let mut i: usize = 0;
    while i < offices.len()
        invariant
            i <= offices@.len(),
            forall|j: int| 0 <= j < i ==> offices@[j].id@ != id@,
        decreases offices@.len() - i,
    {
        if offices[i].id == *id {
            return Some(i);
        }
        i += 1;
    }
    None
}

/// Find the first available salesperson of the office, in catalog order.
pub fn find_available_salesperson(sps: &Vec<Salesperson>, office_id: &String) -> (r: Option<
    usize,
>)
    ensures
        match r {
            Some(k) => is_first_available_index(sps@, office_id@, k as int),
            None => !some_available(sps@, office_id@),
        },
{
    let mut i: usize = 0;
    while i < sps.len()
        invariant
            i <= sps@.len(),
            forall|j: int| 0 <= j < i ==> !available_for(sps@[j], office_id@),
        decreases sps@.len() - i,
    {
        if sps[i].office_id == *office_id && sps[i].is_available {
            return Some(i);
        }
        i += 1;
    }
    None
}

/// The office catalog as seeded at startup.
pub open spec fn seed_offices(o: Seq<Office>) -> bool {
    &&& o.len() == 5
    &&& o[0].id@ == "scranton"@
    &&& o[0].name@ == "Scranton"@
    &&& o[0].location@ == "Scranton, PA"@
    &&& o[0].available_salespeople@.len() == 3
    &&& o[0].available_salespeople@[0]@ == "michael_scott"@
    &&& o[0].available_salespeople@[1]@ == "jim_halpert"@
    &&& o[0].available_salespeople@[2]@ == "dwight_schrute"@
    &&& o[1].id@ == "stamford"@
    &&& o[1].name@ == "Stamford"@
    &&& o[1].location@ == "Stamford, CT"@
    &&& o[1].available_salespeople@.len() == 2
    &&& o[1].available_salespeople@[0]@ == "karen_filippelli"@
    &&& o[1].available_salespeople@[1]@ == "andy_bernard"@
    &&& o[2].id@ == "utica"@
    &&& o[2].name@ == "Utica"@
    &&& o[2].location@ == "Utica, NY"@
    &&& o[2].available_salespeople@.len() == 1
    &&& o[2].available_salespeople@[0]@ == "karen_filippelli"@
    &&& o[3].id@ == "nashua"@
    &&& o[3].name@ == "Nashua"@
    &&& o[3].location@ == "Nashua, NH"@
    &&& o[3].available_salespeople@.len() == 1
    &&& o[3].available_salespeople@[0]@ == "holly_flax"@
    &&& o[4].id@ == "buffalo"@
    &&& o[4].name@ == "Buffalo"@
    &&& o[4].location@ == "Buffalo, NY"@
    &&& o[4].available_salespeople@.len() == 1
    &&& o[4].available_salespeople@[0]@ == "todd_packer"@
}

/// The salesperson catalog as seeded at startup.
pub open spec fn seed_salespeople(s: Seq<Salesperson>) -> bool {
    &&& s.len() == 7
    &&& s[0].id@ == "michael_scott"@
    &&& s[0].name@ == "Michael Scott"@
    &&& s[0].title@ == "Regional Manager"@
    &&& s[0].office_id@ == "scranton"@
    &&& s[0].is_available == true
    &&& s[0].quote@ == "That's what she said!"@
    &&& s[1].id@ == "jim_halpert"@
    &&& s[1].name@ == "Jim Halpert"@
    &&& s[1].title@ == "Sales Representative"@
    &&& s[1].office_id@ == "scranton"@
    &&& s[1].is_available == true
    &&& s[1].quote@ == "Bears. Beets. Battlestar Galactica."@
    &&& s[2].id@ == "dwight_schrute"@
    &&& s[2].name@ == "Dwight K. Schrute"@
    &&& s[2].title@ == "Assistant Regional Manager"@
    &&& s[2].office_id@ == "scranton"@
    &&& s[2].is_available == true
    &&& s[2].quote@ == "FACT: Bears eat beets."@
    &&& s[3].id@ == "karen_filippelli"@
    &&& s[3].name@ == "Karen Filippelli"@
    &&& s[3].title@ == "Sales Representative"@
    &&& s[3].office_id@ == "stamford"@
    &&& s[3].is_available == false
    &&& s[3].quote@ == "I'm just trying to do my job."@
    &&& s[4].id@ == "andy_bernard"@
    &&& s[4].name@ == "Andy Bernard"@
    &&& s[4].title@ == "Sales Representative"@
    &&& s[4].office_id@ == "stamford"@
    &&& s[4].is_available == true
    &&& s[4].quote@ == "I went to Cornell. Ever heard of it?"@
    &&& s[5].id@ == "holly_flax"@
    &&& s[5].name@ == "Holly Flax"@
    &&& s[5].title@ == "HR Representative"@
    &&& s[5].office_id@ == "nashua"@
    &&& s[5].is_available == true
    &&& s[5].quote@ == "Why are you the way that you are?"@
    &&& s[6].id@ == "todd_packer"@
    &&& s[6].name@ == "Todd Packer"@
    &&& s[6].title@ == "Traveling Salesman"@
    &&& s[6].office_id@ == "buffalo"@
    &&& s[6].is_available == false
    &&& s[6].quote@ == "What's up, Halpert?"@
}

/// Build the startup state: the fixed office and salesperson catalog and an
/// empty session table. Every salesperson's office identifier resolves to a
/// seeded office.
pub fn initialize_chat_data() -> (r: ChatState)
    ensures
        r.sessions@.len() == 0,
        crate::session::stored_statuses_ok(r.sessions@),
        seed_offices(r.offices@),
        seed_salespeople(r.salespeople@),
        directory_resolves(r.offices@, r.salespeople@),
        r.wf(),
{
    let mut scranton_people: Vec<String> = Vec::new();
    scranton_people.push(String::from_str("michael_scott"));
    scranton_people.push(String::from_str("jim_halpert"));
    scranton_people.push(String::from_str("dwight_schrute"));
    let mut stamford_people: Vec<String> = Vec::new();
    stamford_people.push(String::from_str("karen_filippelli"));
    stamford_people.push(String::from_str("andy_bernard"));
    let mut utica_people: Vec<String> = Vec::new();
    utica_people.push(String::from_str("karen_filippelli"));
    let mut nashua_people: Vec<String> = Vec::new();
    nashua_people.push(String::from_str("holly_flax"));
    let mut buffalo_people: Vec<String> = Vec::new();
    buffalo_people.push(String::from_str("todd_packer"));

    let mut offices: Vec<Office> = Vec::new();
    offices.push(Office {
        id: String::from_str("scranton"),
        name: String::from_str("Scranton"),
        location: String::from_str("Scranton, PA"),
        available_salespeople: scranton_people,
    });
    offices.push(Office {
        id: String::from_str("stamford"),
        name: String::from_str("Stamford"),
        location: String::from_str("Stamford, CT"),
        available_salespeople: stamford_people,
    });
    offices.push(Office {
        id: String::from_str("utica"),
        name: String::from_str("Utica"),
        location: String::from_str("Utica, NY"),
        available_salespeople: utica_people,
    });
    offices.push(Office {
        id: String::from_str("nashua"),
        name: String::from_str("Nashua"),
        location: String::from_str("Nashua, NH"),
        available_salespeople: nashua_people,
    });
    offices.push(Office {
        id: String::from_str("buffalo"),
        name: String::from_str("Buffalo"),
        location: String::from_str("Buffalo, NY"),
        available_salespeople: buffalo_people,
    });

    let mut salespeople: Vec<Salesperson> = Vec::new();
    salespeople.push(Salesperson {
        id: String::from_str("michael_scott"),
        name: String::from_str("Michael Scott"),
        title: String::from_str("Regional Manager"),
        office_id: String::from_str("scranton"),
        is_available: true,
        quote: String::from_str("That's what she said!"),
    });
    salespeople.push(Salesperson {
        id: String::from_str("jim_halpert"),
        name: String::from_str("Jim Halpert"),
        title: String::from_str("Sales Representative"),
        office_id: String::from_str("scranton"),
        is_available: true,
        quote: String::from_str("Bears. Beets. Battlestar Galactica."),
    });
    salespeople.push(Salesperson {
        id: String::from_str("dwight_schrute"),
        name: String::from_str("Dwight K. Schrute"),
        title: String::from_str("Assistant Regional Manager"),
        office_id: String::from_str("scranton"),
        is_available: true,
        quote: String::from_str("FACT: Bears eat beets."),
    });
    salespeople.push(Salesperson {
        id: String::from_str("karen_filippelli"),
        name: String::from_str("Karen Filippelli"),
        title: String::from_str("Sales Representative"),
        office_id: String::from_str("stamford"),
        is_available: false,
        quote: String::from_str("I'm just trying to do my job."),
    });
    salespeople.push(Salesperson {
        id: String::from_str("andy_bernard"),
        name: String::from_str("Andy Bernard"),
        title: String::from_str("Sales Representative"),
        office_id: String::from_str("stamford"),
        is_available: true,
        quote: String::from_str("I went to Cornell. Ever heard of it?"),
    });
    salespeople.push(Salesperson {
        id: String::from_str("holly_flax"),
        name: String::from_str("Holly Flax"),
        title: String::from_str("HR Representative"),
        office_id: String::from_str("nashua"),
        is_available: true,
        quote: String::from_str("Why are you the way that you are?"),
    });
    salespeople.push(Salesperson {
        id: String::from_str("todd_packer"),
        name: String::from_str("Todd Packer"),
        title: String::from_str("Traveling Salesman"),
        office_id: String::from_str("buffalo"),
        is_available: false,
        quote: String::from_str("What's up, Halpert?"),
    });

    let r = ChatState { sessions: Vec::new(), offices, salespeople };
    proof {
        assert forall|i: int| 0 <= i < r.salespeople@.len() implies office_id_exists(
            r.offices@,
            r.salespeople@[i].office_id@,
        ) by {
            if i <= 2 {
                assert(r.offices@[0].id@ == r.salespeople@[i].office_id@);
            } else if i <= 4 {
                assert(r.offices@[1].id@ == r.salespeople@[i].office_id@);
            } else if i == 5 {
                assert(r.offices@[3].id@ == r.salespeople@[i].office_id@);
            } else {
                assert(r.offices@[4].id@ == r.salespeople@[i].office_id@);
            }
        }
    }
    r
}

} // verus!
