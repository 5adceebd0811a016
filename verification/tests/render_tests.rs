use pollcore::model::NameDirectory;
use pollcore::model::NickEntry;
use pollcore::model::Participant;
use pollcore::render::render;
use pollcore::render::render_section;
use pollcore::model::PollOption;
use pollcore::resolve::nick_in_from_cache;
use pollcore::resolve::resolve;

fn p(id: u64, name: &str) -> Participant {
    Participant { id, display_name: name.to_string() }
}

fn empty_dir() -> NameDirectory {
    NameDirectory { entries: vec![] }
}

#[test]
fn section_counts_exclude_self() {
    // The bot (id 1) reacted too; the section lists and counts only the others.
    let roster = vec![p(1, "bot"), p(2, "Alice"), p(3, "Bob")];
    let dir = empty_dir();
    let s = render_section(PollOption::Accept, &roster, &dir, 1);
    assert_eq!(s, "\u{2705}** __Accepted__ (2):**\nAlice\nBob\n");
}

#[test]
fn empty_section_omits_count_suffix() {
    let roster: Vec<Participant> = vec![];
    let dir = empty_dir();
    let s = render_section(PollOption::Tentative, &roster, &dir, 1);
    assert_eq!(s, "\u{2754}** __Tentative__:**\n");
}

#[test]
fn section_of_only_self_is_empty() {
    let roster = vec![p(1, "bot")];
    let dir = empty_dir();
    let s = render_section(PollOption::Decline, &roster, &dir, 1);
    assert_eq!(s, "\u{274C}** __Declined__:**\n");
}

#[test]
fn render_assembles_three_sections() {
    let a = vec![p(2, "Alice")];
    let d = vec![p(3, "Bob")];
    let t: Vec<Participant> = vec![];
    let dir = empty_dir();
    let body = render(&a, &d, &t, &dir, 1);
    assert_eq!(
        body,
        "_ _\n\
         \u{2705}** __Accepted__ (1):**\nAlice\n\n\
         \u{274C}** __Declined__ (1):**\nBob\n\n\
         \u{2754}** __Tentative__:**\n\n\
         _ _\n"
    );
}

#[test]
fn render_is_idempotent() {
    let a = vec![p(2, "Alice"), p(4, "Carol")];
    let d = vec![p(3, "Bob")];
    let t = vec![p(5, "Dan")];
    let dir = NameDirectory { entries: vec![NickEntry { id: 4, nick: "Caz".to_string() }] };
    let one = render(&a, &d, &t, &dir, 1);
    let two = render(&a, &d, &t, &dir, 1);
    assert_eq!(one, two);
}

#[test]
fn render_uses_nicknames_from_snapshot() {
    let a = vec![p(2, "Alice")];
    let dir = NameDirectory { entries: vec![NickEntry { id: 2, nick: "Ally".to_string() }] };
    let s = render_section(PollOption::Accept, &a, &dir, 1);
    assert_eq!(s, "\u{2705}** __Accepted__ (1):**\nAlly\n");
}

#[test]
fn resolver_prefers_nickname() {
    let dir = NameDirectory {
        entries: vec![
            NickEntry { id: 2, nick: "Ally".to_string() },
            NickEntry { id: 3, nick: "Bobby".to_string() },
        ],
    };
    assert_eq!(resolve(&dir, &p(2, "Alice")), "Ally");
    assert_eq!(resolve(&dir, &p(9, "Eve")), "Eve");
}

#[test]
fn resolver_first_matching_entry_wins() {
    let dir = NameDirectory {
        entries: vec![
            NickEntry { id: 2, nick: "First".to_string() },
            NickEntry { id: 2, nick: "Second".to_string() },
        ],
    };
    assert_eq!(nick_in_from_cache(&dir, 2), Some("First".to_string()));
    assert_eq!(nick_in_from_cache(&dir, 7), None);
}

#[test]
fn resolver_neutralizes_mention_spam() {
    // serenity's normalization inserts a zero-width space into "@everyone".
    let dir = empty_dir();
    assert_eq!(resolve(&dir, &p(2, "@everyone")), "@\u{200B}everyone");
}

#[test]
fn resolver_escapes_markdown() {
    let dir = empty_dir();
    assert_eq!(resolve(&dir, &p(2, "a_b*c`d")), "a\\_b\\*c\\`d");
}

#[test]
fn rendered_names_are_escaped() {
    let roster = vec![p(2, "under_score")];
    let dir = empty_dir();
    let s = render_section(PollOption::Accept, &roster, &dir, 1);
    assert_eq!(s, "\u{2705}** __Accepted__ (1):**\nunder\\_score\n");
}
