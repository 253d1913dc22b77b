use crawlers::message::{Message, Payload};
use crawlers::pubsub::{JobEvent, JobType};
use crawlers::rare_finder::{job_action, JobAction};

#[test]
fn job_type_from_wire() {
    assert!(matches!(JobType::from_wire_name("crawler".to_string()), JobType::Crawler));
    assert!(matches!(JobType::from_wire_name("Crawler".to_string()), JobType::Other(s) if s == "Crawler"));
    assert!(matches!(JobType::from_wire_name("".to_string()), JobType::Other(s) if s.is_empty()));
}

#[test]
fn job_type_to_wire() {
    assert_eq!(JobType::Crawler.wire_name(), "foo");
    assert_eq!(JobType::Other("mail".to_string()).wire_name(), "mail");
}

#[test]
fn job_type_round_trip_and_its_exceptions() {
    let t = JobType::Other("mail".to_string());
    assert!(matches!(JobType::from_wire_name(t.wire_name()), JobType::Other(s) if s == "mail"));
    // the crawler job is written "foo", which reads back as another job
    assert!(matches!(JobType::from_wire_name(JobType::Crawler.wire_name()), JobType::Other(s) if s == "foo"));
    // another job named "crawler" reads back as the crawler job
    assert!(matches!(JobType::from_wire_name(JobType::Other("crawler".to_string()).wire_name()), JobType::Crawler));
    // names other than "crawler" are written back as they were read
    assert_eq!(JobType::from_wire_name("sync".to_string()).wire_name(), "sync");
    assert_eq!(JobType::from_wire_name("crawler".to_string()).wire_name(), "foo");
}

#[test]
fn job_actions() {
    assert_eq!(job_action(&JobEvent { job_type: JobType::Crawler }), JobAction::RunCrawler);
    assert_eq!(job_action(&JobEvent { job_type: JobType::Other("x".to_string()) }), JobAction::Unsupported);
}

fn is_uuid_v4(s: &str) -> bool {
    let c: Vec<char> = s.chars().collect();
    c.len() == 36
        && c.iter().enumerate().all(|(i, ch)| {
            if i == 8 || i == 13 || i == 18 || i == 23 {
                *ch == '-'
            } else {
                ch.is_ascii_digit() || ('a'..='f').contains(ch)
            }
        })
        && c[14] == '4'
        && "89ab".contains(c[19])
}

#[test]
fn message_new() {
    let m = Message::new(Payload::Crawler(vec!["a".to_string(), "b".to_string()]));
    assert_eq!(m.channel, "crawler");
    assert!(matches!(&m.payload, Payload::Crawler(ids) if ids == &vec!["a".to_string(), "b".to_string()]));
    assert!(is_uuid_v4(&m.id), "{}", m.id);
    let n = Message::new(Payload::Crawler(vec![]));
    assert_ne!(m.id, n.id);
}
