use tuixel::action::Action;
use tuixel::action::Effect;
use tuixel::action::Module;
use tuixel::components::cron::utils::Listing;
use tuixel::components::cron_popup::ActiveInput;
use tuixel::components::cron_popup::PopupKey;
use tuixel::runtime::Runtime;
use tuixel::runtime::Step;

// 2024-01-01 00:00:00 UTC
const NOW: i64 = 1_704_067_200;

const STORE: &str = "# backup\n0 2 * * * /usr/bin/backup.sh\n0 4 * * * /usr/bin/rotate\n";

/// Steps until the queue is empty, answering to a load from `store`;
/// returns what was handled, with the effects.
fn drain(rt: &mut Runtime, store: &mut String) -> Vec<(Action, Effect)> {
    let mut seen = Vec::new();
    loop {
        match rt.step(NOW) {
            Step::Idle => return seen,
            Step::Handled(action, effect) => {
                match effect {
                    Effect::LoadSchedule => {
                        rt.schedule_loaded(&Listing::Listed(store.clone()), NOW)
                    }
                    Effect::SaveSchedule => *store = rt.schedule_text(),
                    Effect::Nothing => {}
                }
                seen.push((action, effect));
            }
        }
    }
}

fn in_the_list(store: &mut String) -> Runtime {
    let mut rt = Runtime::new();
    rt.send(Action::Select);
    drain(&mut rt, store);
    rt
}

fn commands(rt: &Runtime) -> Vec<String> {
    rt.cron().items().iter().map(|j| j.job.clone()).collect()
}

#[test]
fn a_session_starts_in_the_menu() {
    let mut rt = Runtime::new();
    assert_eq!(rt.mode(), Module::Home);
    assert!(rt.is_running());
    assert_eq!(rt.pending(), 0);
    assert!(rt.home().is_enabled());
    assert_eq!(rt.home().selected(), Some(0));
    assert!(!rt.cron().is_enabled());
    assert!(!rt.popup().is_enabled());
    assert!(matches!(rt.step(NOW), Step::Idle));
}

#[test]
fn the_first_menu_item_leads_to_the_job_list() {
    let mut rt = Runtime::new();
    let mut store = STORE.to_string();
    rt.send(Action::Select);
    let seen = drain(&mut rt, &mut store);
    assert_eq!(
        seen,
        vec![
            (Action::Select, Effect::Nothing),
            (Action::ChangeMode(Module::Cron), Effect::LoadSchedule),
        ]
    );
    assert_eq!(rt.mode(), Module::Cron);
    assert!(!rt.home().is_enabled());
    assert!(rt.cron().is_enabled());
    assert_eq!(commands(&rt), vec!["/usr/bin/backup.sh", "/usr/bin/rotate"]);
    assert_eq!(rt.cron().selected(), Some(0));
    assert_eq!(rt.cron().items()[0].job_description, "backup");
}

#[test]
fn actions_are_handled_in_the_order_they_were_sent() {
    let mut rt = Runtime::new();
    let mut store = STORE.to_string();
    rt.send(Action::Select);
    rt.send(Action::Render);
    rt.send(Action::Resize(80, 24));
    assert_eq!(rt.pending(), 3);
    let seen: Vec<Action> = drain(&mut rt, &mut store).into_iter().map(|s| s.0).collect();
    assert_eq!(
        seen,
        vec![
            Action::Select,
            Action::Render,
            Action::Resize(80, 24),
            Action::ChangeMode(Module::Cron),
        ]
    );
}

#[test]
fn only_the_interactive_panel_navigates() {
    let mut store = STORE.to_string();
    let mut rt = in_the_list(&mut store);
    rt.send(Action::MoveDown);
    drain(&mut rt, &mut store);
    assert_eq!(rt.cron().selected(), Some(1));
    assert_eq!(rt.home().selected(), Some(0));
    let mut rt = Runtime::new();
    rt.send(Action::MoveDown);
    rt.send(Action::MoveDown);
    drain(&mut rt, &mut store);
    assert_eq!(rt.home().selected(), Some(2));
    assert_eq!(rt.cron().selected(), None);
}

#[test]
fn the_menu_selection_stops_at_its_ends() {
    let mut rt = Runtime::new();
    let mut store = String::new();
    rt.send(Action::MoveUp);
    drain(&mut rt, &mut store);
    assert_eq!(rt.home().selected(), Some(0));
    for _ in 0..9 {
        rt.send(Action::MoveDown);
    }
    drain(&mut rt, &mut store);
    assert_eq!(rt.home().selected(), Some(4));
    rt.send(Action::MoveToTheFirst);
    drain(&mut rt, &mut store);
    assert_eq!(rt.home().selected(), Some(0));
    rt.send(Action::MoveToTheLast);
    drain(&mut rt, &mut store);
    assert_eq!(rt.home().selected(), Some(4));
}

#[test]
fn any_other_menu_item_ends_the_session() {
    let mut rt = Runtime::new();
    let mut store = String::new();
    rt.send(Action::MoveDown);
    rt.send(Action::Select);
    rt.send(Action::Render);
    let seen: Vec<Action> = drain(&mut rt, &mut store).into_iter().map(|s| s.0).collect();
    assert_eq!(seen, vec![Action::MoveDown, Action::Select, Action::Render, Action::Quit]);
    assert!(!rt.is_running());
    rt.send(Action::Render);
    assert_eq!(rt.pending(), 0);
    assert!(matches!(rt.step(NOW), Step::Idle));
}

#[test]
fn quitting_leaves_what_waits_unhandled() {
    let mut rt = Runtime::new();
    rt.send(Action::Quit);
    rt.send(Action::MoveDown);
    assert!(matches!(rt.step(NOW), Step::Handled(Action::Quit, Effect::Nothing)));
    assert!(matches!(rt.step(NOW), Step::Idle));
    assert_eq!(rt.home().selected(), Some(0));
    assert_eq!(rt.pending(), 1);
}

#[test]
fn going_back_to_the_menu_clears_the_screen() {
    let mut store = STORE.to_string();
    let mut rt = in_the_list(&mut store);
    rt.send(Action::ChangeMode(Module::Home));
    let seen: Vec<Action> = drain(&mut rt, &mut store).into_iter().map(|s| s.0).collect();
    assert_eq!(seen, vec![Action::ChangeMode(Module::Home), Action::ClearScreen]);
    assert_eq!(rt.mode(), Module::Home);
    assert!(rt.home().is_enabled());
    assert!(!rt.cron().is_enabled());
}

#[test]
fn editing_a_record_updates_the_list_and_the_store() {
    let mut store = STORE.to_string();
    let mut rt = in_the_list(&mut store);
    rt.send(Action::MoveDown);
    rt.send(Action::Select);
    drain(&mut rt, &mut store);
    assert_eq!(rt.mode(), Module::CronPopup);
    assert!(rt.popup().is_enabled());
    assert_eq!(rt.popup().cron_notation_value(), "0 4 * * *");
    assert_eq!(rt.popup().job_value(), "/usr/bin/rotate");
    assert_eq!(store, STORE);
    rt.popup_key(PopupKey::Edited(Some("30 5 * * *".to_string())));
    rt.send(Action::SwtichInput);
    rt.send(Action::SwtichInput);
    drain(&mut rt, &mut store);
    rt.popup_key(PopupKey::Edited(Some("logs".to_string())));
    rt.send(Action::Confirm);
    let seen = drain(&mut rt, &mut store);
    assert_eq!(seen.len(), 3);
    assert_eq!(seen[0], (Action::Confirm, Effect::Nothing));
    assert_eq!(seen[1].1, Effect::SaveSchedule);
    assert_eq!(seen[2], (Action::ChangeMode(Module::Cron), Effect::LoadSchedule));
    assert_eq!(rt.mode(), Module::Cron);
    assert!(!rt.popup().is_enabled());
    assert_eq!(
        store,
        "# backup\n0 2 * * * /usr/bin/backup.sh\n# logs\n30 5 * * * /usr/bin/rotate\n"
    );
    assert_eq!(commands(&rt), vec!["/usr/bin/backup.sh", "/usr/bin/rotate"]);
    assert_eq!(rt.cron().items()[1].cron_notation, "30 5 * * *");
    assert_eq!(rt.cron().items()[1].next_execution, "2024-01-01 05:30:00 UTC");
    assert_eq!(rt.cron().selected(), Some(1));
}

#[test]
fn a_new_record_is_appended_to_the_list_and_the_store() {
    let mut store = STORE.to_string();
    let mut rt = in_the_list(&mut store);
    rt.send(Action::NewRecord);
    drain(&mut rt, &mut store);
    assert_eq!(rt.mode(), Module::CronPopup);
    assert!(rt.popup().is_new());
    rt.popup_key(PopupKey::Edited(Some("*/10 * * * *".to_string())));
    rt.send(Action::SwtichInput);
    drain(&mut rt, &mut store);
    rt.popup_key(PopupKey::Edited(Some("ping".to_string())));
    rt.send(Action::Confirm);
    drain(&mut rt, &mut store);
    assert_eq!(commands(&rt), vec!["/usr/bin/backup.sh", "/usr/bin/rotate", "ping"]);
    assert_eq!(rt.cron().selected(), Some(2));
    assert!(store.ends_with("0 4 * * * /usr/bin/rotate\n*/10 * * * * ping\n"));
}

#[test]
fn an_invalid_expression_keeps_the_form_open_and_the_list_as_it_was() {
    let mut store = STORE.to_string();
    let mut rt = in_the_list(&mut store);
    rt.send(Action::Select);
    drain(&mut rt, &mut store);
    assert_eq!(rt.popup().cron_notation_value(), "0 2 * * *");
    rt.popup_key(PopupKey::Edited(Some("bad".to_string())));
    rt.send(Action::SwtichInput);
    drain(&mut rt, &mut store);
    assert_eq!(rt.popup().current_input(), ActiveInput::Job);
    rt.send(Action::Confirm);
    let seen = drain(&mut rt, &mut store);
    assert_eq!(seen, vec![(Action::Confirm, Effect::Nothing)]);
    assert_eq!(rt.mode(), Module::CronPopup);
    assert!(rt.popup().is_enabled());
    assert_eq!(rt.popup().current_input(), ActiveInput::CronNotation);
    assert_eq!(rt.popup().cron_notation_value(), "bad");
    assert_eq!(commands(&rt), vec!["/usr/bin/backup.sh", "/usr/bin/rotate"]);
    assert_eq!(rt.cron().items()[0].cron_notation, "0 2 * * *");
    assert_eq!(rt.cron().items()[0].job_description, "backup");
    assert_eq!(rt.cron().items().len(), 2);
    assert_eq!(store, STORE);
}

#[test]
fn cancelling_the_form_leaves_list_and_store_alone() {
    let mut store = STORE.to_string();
    let mut rt = in_the_list(&mut store);
    rt.send(Action::Select);
    drain(&mut rt, &mut store);
    rt.popup_key(PopupKey::Edited(Some("0 9 * * *".to_string())));
    rt.send(Action::ChangeMode(Module::Cron));
    let seen = drain(&mut rt, &mut store);
    assert_eq!(seen, vec![(Action::ChangeMode(Module::Cron), Effect::LoadSchedule)]);
    assert!(!rt.popup().is_enabled());
    assert_eq!(rt.popup().cron_notation_value(), "");
    assert_eq!(rt.cron().items()[0].cron_notation, "0 2 * * *");
    assert_eq!(store, STORE);
}

#[test]
fn deleting_the_only_record_empties_list_and_store() {
    let mut store = "0 2 * * * only\n".to_string();
    let mut rt = in_the_list(&mut store);
    rt.send(Action::DeleteRecord);
    let seen = drain(&mut rt, &mut store);
    assert_eq!(seen, vec![(Action::DeleteRecord, Effect::SaveSchedule)]);
    assert_eq!(rt.cron().items().len(), 0);
    assert_eq!(rt.cron().selected(), None);
    assert_eq!(store, "");
    rt.send(Action::DeleteRecord);
    rt.send(Action::Select);
    rt.send(Action::MoveDown);
    let seen = drain(&mut rt, &mut store);
    assert!(seen.iter().all(|s| s.1 == Effect::Nothing));
    assert_eq!(rt.mode(), Module::Cron);
}

#[test]
fn a_store_without_schedule_shows_one_placeholder() {
    let mut rt = Runtime::new();
    rt.send(Action::Select);
    rt.step(NOW);
    match rt.step(NOW) {
        Step::Handled(Action::ChangeMode(Module::Cron), Effect::LoadSchedule) => {}
        other => panic!("unexpected: {:?}", other),
    }
    rt.schedule_loaded(&Listing::Refused("no crontab for root".to_string()), NOW);
    assert_eq!(rt.cron().items().len(), 1);
    assert_eq!(rt.cron().items()[0].cron_notation, "User has no crontab");
    assert_eq!(rt.cron().items()[0].job, "");
    assert_eq!(rt.schedule_text(), "");
}

#[test]
fn the_pointer_opens_a_menu_item_and_a_record() {
    let mut store = STORE.to_string();
    let mut rt = Runtime::new();
    rt.pointer(2, true, false);
    assert_eq!(rt.pending(), 0);
    rt.pointer(7, true, false);
    assert_eq!(rt.pending(), 1);
    assert!(!rt.home().is_enabled());
    let seen: Vec<Action> = drain(&mut rt, &mut store).into_iter().map(|s| s.0).collect();
    assert_eq!(seen, vec![Action::ChangeMode(Module::Cron)]);
    rt.pointer(6, true, false);
    assert_eq!(rt.cron().selected(), Some(1));
    assert_eq!(rt.pending(), 0);
    rt.pointer(6, false, true);
    assert_eq!(rt.pending(), 1);
    drain(&mut rt, &mut store);
    assert_eq!(rt.mode(), Module::CronPopup);
    assert_eq!(rt.popup().job_value(), "/usr/bin/rotate");
    rt.pointer(3, false, true);
    assert_eq!(rt.pending(), 0);
    assert_eq!(rt.cron().selected(), Some(1));
}
