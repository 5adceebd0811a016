use pollcore::audit::AuditPlan;
use pollcore::audit::PostTarget;
use pollcore::audit::append_plan;
use pollcore::audit::find_thread_by_parent_id;
use pollcore::digits::u64_to_dec;
use pollcore::markup::user_mention;
use pollcore::model::ThreadInfo;

fn thread(id: u64, parent: Option<u64>) -> ThreadInfo {
    ThreadInfo { id, parent_id: parent }
}

#[test]
fn finds_first_thread_under_parent() {
    let threads = vec![
        thread(100, None),
        thread(101, Some(9)),
        thread(102, Some(5)),
        thread(103, Some(5)),
    ];
    assert_eq!(find_thread_by_parent_id(&threads, 5), Some(102));
    assert_eq!(find_thread_by_parent_id(&threads, 9), Some(101));
    assert_eq!(find_thread_by_parent_id(&threads, 7), None);
    assert_eq!(find_thread_by_parent_id(&vec![], 5), None);
}

fn assert_create_plan(plan: &AuditPlan, msg_id: u64, text: &str) {
    assert_eq!(plan.create_name.as_deref(), Some(format!("log-{}", msg_id).as_str()));
    assert_eq!(plan.posts.len(), 2);
    assert_eq!(plan.posts[0].target, PostTarget::NewThread);
    assert_eq!(plan.posts[0].text, "Can't find an existing log thread, created a new one.");
    assert_eq!(plan.posts[1].target, PostTarget::NewThread);
    assert_eq!(plan.posts[1].text, text);
}

#[test]
fn append_posts_to_existing_thread() {
    let threads = vec![thread(101, Some(5))];
    let text = "someone reacted".to_string();
    let plan = append_plan(&threads, 5, 777, &text);
    assert!(plan.create_name.is_none());
    assert_eq!(plan.posts.len(), 1);
    assert_eq!(plan.posts[0].target, PostTarget::Existing(101));
    assert_eq!(plan.posts[0].text, "someone reacted");
}

#[test]
fn append_creates_thread_once_when_none_matches() {
    // No thread hangs under the hosting channel: exactly one creation,
    // named from the poll message id, then the notice and the line.
    let threads = vec![thread(101, Some(9)), thread(102, None)];
    let text = "someone reacted".to_string();
    let plan = append_plan(&threads, 5, 777, &text);
    assert_create_plan(&plan, 777, "someone reacted");
}

#[test]
fn append_race_on_stale_snapshots_creates_twice() {
    // Two appends working from the same stale "no thread found" snapshot
    // each plan a creation: the known race leaves at least one thread, and
    // possibly two.  Deduplication is deliberately not attempted.
    let threads: Vec<ThreadInfo> = vec![];
    let text = "someone reacted".to_string();
    let first = append_plan(&threads, 5, 777, &text);
    let second = append_plan(&threads, 5, 777, &text);
    assert_create_plan(&first, 777, "someone reacted");
    assert_create_plan(&second, 777, "someone reacted");
}

#[test]
fn decimal_rendering_matches_std() {
    assert_eq!(u64_to_dec(0), "0");
    assert_eq!(u64_to_dec(7), "7");
    assert_eq!(u64_to_dec(10), "10");
    assert_eq!(u64_to_dec(305441), "305441");
    assert_eq!(u64_to_dec(u64::MAX), u64::MAX.to_string());
}

#[test]
fn mention_format() {
    assert_eq!(user_mention(5), "<@5>");
    assert_eq!(user_mention(81384788765712384), "<@81384788765712384>");
}
