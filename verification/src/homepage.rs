//! The data shown on the homepage: the fixed employee roster, the fixed news
//! items, and the office list that is shown only while the chat feature is
//! on. Rendering the page itself is the caller's concern.

use vstd::prelude::*;
use vstd::string::StringExecFns;

use crate::chat::offices_match;
use crate::session::ChatState;
use crate::types::{ChatConfig, Employee, NewsItem, Office};

verus! {

/// The fixed employee roster shown on the homepage.
pub open spec fn roster_entry(
    e: Employee,
    name: Seq<char>,
    title: Seq<char>,
    department: Seq<char>,
    years_service: u8,
) -> bool {
    e.name@ == name && e.title@ == title && e.department@ == department && e.years_service
        == years_service
}

pub fn homepage_employees() -> (r: Vec<Employee>)
    ensures
        r@.len() == 4,
        roster_entry(r@[0], "Michael Scott"@, "Regional Manager"@, "Management"@, 15),
        roster_entry(r@[1], "Jim Halpert"@, "Sales Representative"@, "Sales"@, 8),
        roster_entry(r@[2], "Dwight K. Schrute"@, "Assistant Regional Manager"@, "Sales"@, 10),
        roster_entry(r@[3], "Pam Beesly"@, "Office Administrator"@, "Administration"@, 7),
{
    let mut employees: Vec<Employee> = Vec::new();
    employees.push(Employee {
        name: String::from_str("Michael Scott"),
        title: String::from_str("Regional Manager"),
        department: String::from_str("Management"),
        years_service: 15,
        photo: String::from_str("/static/images/michael.jpg"),
        quote: String::from_str("That's what she said!"),
    });
    employees.push(Employee {
        name: String::from_str("Jim Halpert"),
        title: String::from_str("Sales Representative"),
        department: String::from_str("Sales"),
        years_service: 8,
        photo: String::from_str("/static/images/jim.jpg"),
        quote: String::from_str("Bears. Beets. Battlestar Galactica."),
    });
    employees.push(Employee {
        name: String::from_str("Dwight K. Schrute"),
        title: String::from_str("Assistant Regional Manager"),
        department: String::from_str("Sales"),
        years_service: 10,
        photo: String::from_str("/static/images/dwight.jpg"),
        quote: String::from_str("FACT: Bears eat beets."),
    });
    employees.push(Employee {
        name: String::from_str("Pam Beesly"),
        title: String::from_str("Office Administrator"),
        department: String::from_str("Administration"),
        years_service: 7,
        photo: String::from_str("/static/images/pam.jpg"),
        quote: String::from_str("I'm really happy I'm here."),
    });
    employees
}

/// The fixed news items shown on the homepage.
pub fn homepage_news() -> (r: Vec<NewsItem>)
    ensures
        r@.len() == 3,
        r@[0].title@ == "Infinity 2.0 Launch: Revolutionary Upgrade!"@,
        r@[0].date@ == "2024-01-15"@,
        r@[0].author@ == "Ryan Howard"@,
        r@[1].title@ == "Q4 Sales Records Broken Again!"@,
        r@[1].date@ == "2024-01-10"@,
        r@[1].author@ == "Michael Scott"@,
        r@[2].title@ == "New Mobile App Available"@,
        r@[2].date@ == "2024-01-08"@,
        r@[2].author@ == "IT Department"@,
{
    let mut news: Vec<NewsItem> = Vec::new();
    news.push(NewsItem {
        title: String::from_str("Infinity 2.0 Launch: Revolutionary Upgrade!"),
        content: String::from_str(
            "Our new Infinity 2.0 system promises 400% more efficiency with 73% fewer bugs than the previous version. Features include: Advanced CRM integration, Mobile-first design, AI-powered paper recommendations, and Blockchain-based supply chain tracking.",
        ),
        date: String::from_str("2024-01-15"),
        author: String::from_str("Ryan Howard"),
    });
    news.push(NewsItem {
        title: String::from_str("Q4 Sales Records Broken Again!"),
        content: String::from_str(
            "Thanks to our innovative sales strategies and the power of Infinity 2.0, Scranton branch has exceeded all expectations. Special recognition goes to our top performers in the field.",
        ),
        date: String::from_str("2024-01-10"),
        author: String::from_str("Michael Scott"),
    });
    news.push(NewsItem {
        title: String::from_str("New Mobile App Available"),
        content: String::from_str(
            "Download the Dunder Mifflin Infinity 2.0 mobile app for real-time paper ordering, inventory tracking, and exclusive paper deals. Available on BlackBerry and iPhone.",
        ),
        date: String::from_str("2024-01-08"),
        author: String::from_str("IT Department"),
    });
    news
}

/// The offices shown on the homepage: the full catalog while the chat
/// feature is on, nothing while it is off.
pub fn homepage_offices(state: &ChatState, config: &ChatConfig) -> (r: Vec<Office>)
    ensures
        config.feature_enabled ==> offices_match(r@, state.offices@),
        !config.feature_enabled ==> r@.len() == 0,
{
    if config.feature_enabled {
        let offices = state.offices.clone();
        proof {
            assert forall|i: int| 0 <= i < offices@.len() implies crate::types::office_eq(
                offices@[i],
                state.offices@[i],
            ) by {
                assert(cloned::<Office>(state.offices@[i], offices@[i]));
                if offices@[i] == state.offices@[i] {
                } else {
                    assert(call_ensures(Office::clone, (&state.offices@[i],), offices@[i]));
                }
            }
        }
        offices
    } else {
        Vec::new()
    }
}

} // verus!
