use tuixel::action::Action;
use tuixel::action::Effect;
use tuixel::action::Module;
use tuixel::action::Target;
use tuixel::components::cron::edit;
use tuixel::components::cron::edit::FormKey;
use tuixel::components::cron::edit::Inputs;
use tuixel::components::cron::CronJob;
use tuixel::components::cron_popup;
use tuixel::components::cron_popup::CronPopup;
use tuixel::components::cron_popup::PopupKey;

// 2024-01-01 00:00:00 UTC
const NOW: i64 = 1_704_067_200;

fn job(notation: &str, command: &str, description: &str) -> CronJob {
    CronJob {
        cron_notation: notation.to_string(),
        job: command.to_string(),
        job_description: description.to_string(),
        next_execution: String::new(),
    }
}

fn texts(jobs: &[CronJob]) -> Vec<(String, String, String)> {
    jobs.iter()
        .map(|j| (j.cron_notation.clone(), j.job.clone(), j.job_description.clone()))
        .collect()
}

fn line(text: &str) -> Option<String> {
    Some(text.to_string())
}

#[test]
fn focus_of_the_small_form_cycles_through_three_fields() {
    let first = edit::ActiveInput::default();
    assert_eq!(first, edit::ActiveInput::CronNotation);
    assert_eq!(first.next(), edit::ActiveInput::Job);
    assert_eq!(first.next().next(), edit::ActiveInput::JobDescription);
    assert_eq!(first.next().next().next(), edit::ActiveInput::CronNotation);
}

#[test]
fn focus_of_the_popup_cycles_through_four_fields() {
    let first = cron_popup::ActiveInput::default();
    assert_eq!(first, cron_popup::ActiveInput::CronNotation);
    assert_eq!(first.next(), cron_popup::ActiveInput::Job);
    assert_eq!(first.next().next(), cron_popup::ActiveInput::JobDescription);
    assert_eq!(first.next().next().next(), cron_popup::ActiveInput::AIQuestion);
    assert_eq!(first.next().next().next().next(), cron_popup::ActiveInput::CronNotation);
}

#[test]
fn validation_accepts_valid_expressions_only() {
    assert!(edit::validate("0 2 * * *", NOW).is_ok());
    assert!(edit::validate("  0 2 * * *  ", NOW).is_ok());
    match edit::validate("bad", NOW) {
        Err(edit::ValidationError::InvalidCronExpression(message)) => {
            assert_eq!(message, "Invalid cron expression")
        }
        Ok(()) => panic!("accepted"),
    }
    assert!(edit::validate("", NOW).is_err());
    assert!(cron_popup::validate("*/5 * * * *", NOW).is_ok());
    match cron_popup::validate("0 2 * *", NOW) {
        Err(cron_popup::ValidationError::InvalidCronExpression(message)) => {
            assert_eq!(message, "Invalid cron expression")
        }
        Ok(()) => panic!("accepted"),
    }
}

#[test]
fn a_fresh_small_form_is_blank_and_new() {
    let form = Inputs::default();
    assert!(form.is_new);
    assert_eq!(form.current_input, edit::ActiveInput::CronNotation);
    assert_eq!(form.cron_notation_value, "");
    assert_eq!(form.job_value, "");
    assert_eq!(form.job_description_value, "");
}

#[test]
fn the_small_form_opens_with_the_selected_record() {
    let jobs = vec![job("0 1 * * *", "one", "first"), job("0 2 * * *", "two", "second")];
    let mut form = Inputs::default();
    form.is_new = false;
    form.current_input = edit::ActiveInput::Job;
    form.init(&jobs, Some(1));
    assert_eq!(form.cron_notation_value, "0 2 * * *");
    assert_eq!(form.job_value, "two");
    assert_eq!(form.job_description_value, "second");
    assert_eq!(form.current_input, edit::ActiveInput::CronNotation);
    form.init(&jobs, Some(2));
    assert_eq!(form.cron_notation_value, "");
    form.init(&jobs, None);
    assert_eq!(form.job_value, "");
    form.job_value = "left over".to_string();
    form.init_empty();
    assert!(form.is_new);
    assert_eq!(form.job_value, "");
    form.init(&jobs, Some(0));
    assert_eq!(form.cron_notation_value, "");
}

#[test]
fn keys_reach_the_focused_field_of_the_small_form() {
    let mut form = Inputs::default();
    let mut shown = true;
    let mut jobs: Vec<CronJob> = Vec::new();
    let mut selected = None;
    form.handle_inputs(FormKey::Edited(line("0 2 * * *")), &mut shown, &mut jobs, &mut selected, NOW);
    form.handle_inputs(FormKey::Tab, &mut shown, &mut jobs, &mut selected, NOW);
    form.handle_inputs(FormKey::Edited(line("run")), &mut shown, &mut jobs, &mut selected, NOW);
    form.handle_inputs(FormKey::Rejected, &mut shown, &mut jobs, &mut selected, NOW);
    form.handle_inputs(FormKey::Tab, &mut shown, &mut jobs, &mut selected, NOW);
    form.handle_inputs(FormKey::Edited(line("nightly")), &mut shown, &mut jobs, &mut selected, NOW);
    form.handle_inputs(FormKey::Edited(None), &mut shown, &mut jobs, &mut selected, NOW);
    assert_eq!(form.cron_notation_value, "0 2 * * *");
    assert_eq!(form.job_value, "run");
    assert_eq!(form.job_description_value, "");
    assert_eq!(form.current_input, edit::ActiveInput::JobDescription);
    assert!(shown);
    assert!(jobs.is_empty());
}

#[test]
fn committing_a_new_record_appends_and_selects_it() {
    let mut form = Inputs::default();
    form.cron_notation_value = "0 2 * * *".to_string();
    form.job_value = "run".to_string();
    form.job_description_value = "nightly".to_string();
    let mut shown = true;
    let mut jobs = vec![job("0 1 * * *", "one", "")];
    let mut selected = Some(0);
    let effect = form.handle_inputs(FormKey::Save, &mut shown, &mut jobs, &mut selected, NOW);
    assert_eq!(effect, Effect::SaveSchedule);
    assert!(!shown);
    assert_eq!(selected, Some(1));
    assert_eq!(jobs.len(), 2);
    assert_eq!(jobs[1].cron_notation, "0 2 * * *");
    assert_eq!(jobs[1].job, "run");
    assert_eq!(jobs[1].job_description, "nightly");
    assert_eq!(jobs[1].next_execution, "2024-01-01 02:00:00 UTC");
}

#[test]
fn committing_an_existing_record_replaces_it() {
    let mut form = Inputs::default();
    form.is_new = false;
    let mut shown = true;
    let mut jobs = vec![job("0 1 * * *", "one", ""), job("0 2 * * *", "two", "")];
    let mut selected = Some(1);
    form.init(&jobs, selected);
    form.handle_inputs(FormKey::Edited(line("0 3 * * *")), &mut shown, &mut jobs, &mut selected, NOW);
    let effect = form.handle_inputs(FormKey::Save, &mut shown, &mut jobs, &mut selected, NOW);
    assert_eq!(effect, Effect::SaveSchedule);
    assert!(!shown);
    assert_eq!(selected, Some(1));
    assert_eq!(
        texts(&jobs),
        vec![
            ("0 1 * * *".to_string(), "one".to_string(), String::new()),
            ("0 3 * * *".to_string(), "two".to_string(), String::new()),
        ]
    );
    assert_eq!(jobs[1].next_execution, "2024-01-01 03:00:00 UTC");
}

#[test]
fn committing_without_a_record_to_replace_saves_nothing() {
    let mut form = Inputs::default();
    form.is_new = false;
    form.cron_notation_value = "0 2 * * *".to_string();
    let mut shown = true;
    let mut jobs = vec![job("0 1 * * *", "one", "")];
    let mut selected = Some(4);
    let effect = form.handle_inputs(FormKey::Save, &mut shown, &mut jobs, &mut selected, NOW);
    assert_eq!(effect, Effect::Nothing);
    assert_eq!(texts(&jobs), vec![("0 1 * * *".to_string(), "one".to_string(), String::new())]);
    assert_eq!(selected, Some(4));
    let mut nothing = None;
    let effect = form.handle_inputs(FormKey::Save, &mut shown, &mut jobs, &mut nothing, NOW);
    assert_eq!(effect, Effect::Nothing);
    assert_eq!(jobs.len(), 1);
}

#[test]
fn an_invalid_expression_blocks_the_commit_of_the_small_form() {
    let mut form = Inputs::default();
    form.is_new = false;
    let mut shown = true;
    let mut jobs = vec![job("0 2 * * *", "run", "nightly")];
    let mut selected = Some(0);
    form.init(&jobs, selected);
    form.handle_inputs(FormKey::Edited(line("bad")), &mut shown, &mut jobs, &mut selected, NOW);
    form.handle_inputs(FormKey::Tab, &mut shown, &mut jobs, &mut selected, NOW);
    assert_eq!(form.current_input, edit::ActiveInput::Job);
    let effect = form.handle_inputs(FormKey::Save, &mut shown, &mut jobs, &mut selected, NOW);
    assert_eq!(effect, Effect::Nothing);
    assert_eq!(form.current_input, edit::ActiveInput::CronNotation);
    assert_eq!(form.cron_notation_value, "bad");
    assert!(shown);
    assert_eq!(selected, Some(0));
    assert_eq!(
        texts(&jobs),
        vec![("0 2 * * *".to_string(), "run".to_string(), "nightly".to_string())]
    );
}

#[test]
fn escape_closes_the_small_form_and_discards_its_texts() {
    let mut form = Inputs::default();
    form.cron_notation_value = "0 2 * * *".to_string();
    form.job_value = "run".to_string();
    form.current_input = edit::ActiveInput::JobDescription;
    let mut shown = true;
    let mut jobs = vec![job("0 1 * * *", "one", "")];
    let mut selected = Some(0);
    let effect = form.handle_inputs(FormKey::Esc, &mut shown, &mut jobs, &mut selected, NOW);
    assert_eq!(effect, Effect::Nothing);
    assert!(!shown);
    assert_eq!(form.cron_notation_value, "");
    assert_eq!(form.job_value, "");
    assert_eq!(form.current_input, edit::ActiveInput::CronNotation);
    assert_eq!(jobs.len(), 1);
}

#[test]
fn the_record_of_a_form_carries_its_next_run() {
    let mut form = Inputs::default();
    form.cron_notation_value = "15 6 * * *".to_string();
    form.job_value = "wake".to_string();
    let made = form.create_new_cron(NOW);
    assert_eq!(made.cron_notation, "15 6 * * *");
    assert_eq!(made.job, "wake");
    assert_eq!(made.next_execution, "2024-01-01 06:15:00 UTC");
    let mut target = job("x", "y", "z");
    form.update_selected_cron(&mut target, NOW);
    assert_eq!(target.cron_notation, "15 6 * * *");
    assert_eq!(target.job, "wake");
    assert_eq!(target.job_description, "");
    assert_eq!(target.next_execution, "2024-01-01 06:15:00 UTC");
}

fn open_popup(data: Vec<String>) -> CronPopup {
    let mut popup = CronPopup::new();
    popup.update(&Action::PassData(data), Module::Cron, NOW);
    popup.update(&Action::ChangeMode(Module::CronPopup), Module::Cron, NOW);
    popup
}

fn existing() -> Vec<String> {
    vec!["2".into(), "0 2 * * *".into(), "run".into(), "nightly".into()]
}

#[test]
fn a_new_popup_is_closed() {
    let popup = CronPopup::new();
    assert!(!popup.is_enabled());
    assert!(popup.is_new());
    assert_eq!(popup.target(), Target::New);
    assert_eq!(popup.current_input(), cron_popup::ActiveInput::CronNotation);
    assert_eq!(popup.cron_notation_value(), "");
}

#[test]
fn an_empty_payload_opens_a_blank_popup() {
    let popup = open_popup(Vec::new());
    assert!(popup.is_enabled());
    assert!(popup.is_new());
    assert_eq!(popup.cron_notation_value(), "");
    assert_eq!(popup.job_value(), "");
    assert_eq!(popup.job_description_value(), "");
    assert_eq!(popup.ai_question_value(), "");
}

#[test]
fn a_payload_fills_the_popup() {
    let popup = open_popup(existing());
    assert!(popup.is_enabled());
    assert!(!popup.is_new());
    assert_eq!(popup.target(), Target::Existing(2));
    assert_eq!(popup.cron_notation_value(), "0 2 * * *");
    assert_eq!(popup.job_value(), "run");
    assert_eq!(popup.job_description_value(), "nightly");
    assert_eq!(popup.current_input(), cron_popup::ActiveInput::CronNotation);
}

#[test]
fn opening_for_a_new_record_forgets_the_last_target() {
    let mut popup = open_popup(existing());
    popup.update(&Action::ChangeMode(Module::Cron), Module::CronPopup, NOW);
    popup.update(&Action::PassData(Vec::new()), Module::Cron, NOW);
    assert_eq!(popup.target(), Target::New);
    assert_eq!(popup.cron_notation_value(), "");
}

#[test]
fn a_dormant_popup_ignores_keys_and_navigation() {
    let mut popup = CronPopup::new();
    assert!(!popup.handle_key_event(PopupKey::Edited(line("x"))));
    assert_eq!(popup.cron_notation_value(), "");
    popup.update(&Action::SwtichInput, Module::CronPopup, NOW);
    assert_eq!(popup.current_input(), cron_popup::ActiveInput::CronNotation);
    let mut popup = open_popup(existing());
    popup.update(&Action::SwtichInput, Module::Cron, NOW);
    assert_eq!(popup.current_input(), cron_popup::ActiveInput::CronNotation);
    let r = popup.update(&Action::Confirm, Module::Cron, NOW);
    assert!(r.emitted.is_empty());
    assert!(popup.is_enabled());
}

#[test]
fn keys_reach_the_focused_field_of_the_popup() {
    let mut popup = open_popup(Vec::new());
    popup.handle_key_event(PopupKey::Edited(line("0 2 * * *")));
    popup.update(&Action::SwtichInput, Module::CronPopup, NOW);
    popup.handle_key_event(PopupKey::Edited(line("run")));
    popup.update(&Action::SwtichInput, Module::CronPopup, NOW);
    popup.handle_key_event(PopupKey::Edited(line("nightly")));
    popup.update(&Action::SwtichInput, Module::CronPopup, NOW);
    popup.handle_key_event(PopupKey::Edited(line("every night")));
    popup.handle_key_event(PopupKey::Tab);
    popup.handle_key_event(PopupKey::Enter);
    popup.handle_key_event(PopupKey::Rejected);
    assert_eq!(popup.cron_notation_value(), "0 2 * * *");
    assert_eq!(popup.job_value(), "run");
    assert_eq!(popup.job_description_value(), "nightly");
    assert_eq!(popup.ai_question_value(), "every night");
    assert_eq!(popup.current_input(), cron_popup::ActiveInput::AIQuestion);
    popup.handle_key_event(PopupKey::Edited(None));
    assert_eq!(popup.ai_question_value(), "");
}

#[test]
fn the_assistant_answers_into_the_expression() {
    let mut popup = open_popup(Vec::new());
    assert!(!popup.handle_key_event(PopupKey::Up));
    assert_eq!(popup.cron_notation_value(), "");
    for _ in 0..3 {
        popup.update(&Action::SwtichInput, Module::CronPopup, NOW);
    }
    popup.handle_key_event(PopupKey::Edited(line("every new year")));
    assert_eq!(popup.make_request_to_ai(), "0 0 1 1 *: every new year:");
    assert!(popup.handle_key_event(PopupKey::Up));
    assert_eq!(popup.cron_notation_value(), "0 0 1 1 *: every new year:");
    let r = popup.update(&Action::Confirm, Module::CronPopup, NOW);
    assert!(r.emitted.is_empty());
}

#[test]
fn a_valid_commit_emits_the_edit_and_closes_the_popup() {
    let mut popup = open_popup(existing());
    popup.handle_key_event(PopupKey::Edited(line("0 3 * * *")));
    let r = popup.update(&Action::Confirm, Module::CronPopup, NOW);
    let payload: Vec<String> = vec!["2".into(), "0 3 * * *".into(), "run".into(), "nightly".into()];
    assert_eq!(r.emitted, vec![Action::PassData(payload), Action::ChangeMode(Module::Cron)]);
    assert_eq!(r.effect, Effect::Nothing);
    assert!(!popup.is_enabled());
    assert!(popup.is_new());
    assert_eq!(popup.cron_notation_value(), "");
    assert_eq!(popup.job_value(), "");
}

#[test]
fn a_new_record_is_committed_with_the_new_target() {
    let mut popup = open_popup(Vec::new());
    popup.handle_key_event(PopupKey::Edited(line("  */5 * * * * ")));
    let r = popup.update(&Action::Confirm, Module::CronPopup, NOW);
    let payload: Vec<String> = vec!["-1".into(), "  */5 * * * * ".into(), "".into(), "".into()];
    assert_eq!(r.emitted, vec![Action::PassData(payload), Action::ChangeMode(Module::Cron)]);
}

#[test]
fn an_invalid_expression_blocks_the_commit_of_the_popup() {
    let mut popup = open_popup(existing());
    popup.handle_key_event(PopupKey::Edited(line("bad")));
    popup.update(&Action::SwtichInput, Module::CronPopup, NOW);
    popup.update(&Action::SwtichInput, Module::CronPopup, NOW);
    assert_eq!(popup.current_input(), cron_popup::ActiveInput::JobDescription);
    let r = popup.update(&Action::Confirm, Module::CronPopup, NOW);
    assert!(r.emitted.is_empty());
    assert_eq!(r.effect, Effect::Nothing);
    assert!(popup.is_enabled());
    assert_eq!(popup.current_input(), cron_popup::ActiveInput::CronNotation);
    assert_eq!(popup.cron_notation_value(), "bad");
    assert_eq!(popup.job_value(), "run");
    assert_eq!(popup.target(), Target::Existing(2));
}

#[test]
fn cancelling_closes_the_popup_and_emits_nothing() {
    let mut popup = open_popup(existing());
    let r = popup.update(&Action::ChangeMode(Module::Cron), Module::CronPopup, NOW);
    assert!(r.emitted.is_empty());
    assert!(!popup.is_enabled());
    assert_eq!(popup.cron_notation_value(), "");
    assert_eq!(popup.job_description_value(), "");
    assert_eq!(popup.target(), Target::New);
}

#[test]
fn the_popup_ignores_the_payload_it_sent_itself() {
    let mut popup = open_popup(Vec::new());
    popup.update(&Action::PassData(existing()), Module::CronPopup, NOW);
    assert!(popup.is_new());
    assert_eq!(popup.cron_notation_value(), "");
}

#[test]
fn a_payload_that_carries_no_edit_opens_a_blank_popup() {
    let broken: Vec<String> = vec!["x".into(), "0 2 * * *".into(), "run".into(), "n".into()];
    let popup = open_popup(broken);
    assert!(popup.is_new());
    assert_eq!(popup.cron_notation_value(), "");
}

#[test]
fn a_verdict_follows_the_check() {
    assert!(edit::validation_of(true).is_ok());
    match edit::validation_of(false) {
        Err(edit::ValidationError::InvalidCronExpression(message)) => {
            assert_eq!(message, "Invalid cron expression")
        }
        Ok(()) => panic!("accepted"),
    }
    assert!(cron_popup::validation_of(true).is_ok());
    match cron_popup::validation_of(false) {
        Err(cron_popup::ValidationError::InvalidCronExpression(message)) => {
            assert_eq!(message, "Invalid cron expression")
        }
        Ok(()) => panic!("accepted"),
    }
}

#[test]
fn a_commit_with_a_next_run_writes_the_record() {
    let mut form = Inputs::default();
    form.cron_notation_value = "whatever was typed".to_string();
    form.job_value = "run".to_string();
    let mut shown = true;
    let mut jobs = vec![job("0 1 * * *", "one", "")];
    let mut selected = Some(0);
    let effect =
        form.commit(Some("tomorrow".to_string()), &mut shown, &mut jobs, &mut selected);
    assert_eq!(effect, Effect::SaveSchedule);
    assert!(!shown);
    assert_eq!(selected, Some(1));
    assert_eq!(jobs[1].cron_notation, "whatever was typed");
    assert_eq!(jobs[1].job, "run");
    assert_eq!(jobs[1].next_execution, "tomorrow");
    form.is_new = false;
    form.job_value = "changed".to_string();
    selected = Some(0);
    shown = true;
    let effect = form.commit(Some("later".to_string()), &mut shown, &mut jobs, &mut selected);
    assert_eq!(effect, Effect::SaveSchedule);
    assert_eq!(selected, Some(0));
    assert_eq!(jobs.len(), 2);
    assert_eq!(jobs[0].job, "changed");
    assert_eq!(jobs[0].next_execution, "later");
    assert_eq!(jobs[1].job, "run");
}

#[test]
fn a_commit_without_a_next_run_changes_the_focus_only() {
    let mut form = Inputs::default();
    form.cron_notation_value = "0 2 * * *".to_string();
    form.current_input = edit::ActiveInput::JobDescription;
    let mut shown = true;
    let mut jobs = vec![job("0 1 * * *", "one", "")];
    let mut selected = Some(0);
    let effect = form.commit(None, &mut shown, &mut jobs, &mut selected);
    assert_eq!(effect, Effect::Nothing);
    assert!(shown);
    assert_eq!(selected, Some(0));
    assert_eq!(texts(&jobs), vec![("0 1 * * *".to_string(), "one".to_string(), String::new())]);
    assert_eq!(form.current_input, edit::ActiveInput::CronNotation);
    assert_eq!(form.cron_notation_value, "0 2 * * *");
}

#[test]
fn a_confirmation_follows_the_check() {
    let mut popup = open_popup(existing());
    popup.update(&Action::SwtichInput, Module::CronPopup, NOW);
    assert!(popup.confirm(false).is_empty());
    assert!(popup.is_enabled());
    assert_eq!(popup.current_input(), cron_popup::ActiveInput::CronNotation);
    assert_eq!(popup.job_value(), "run");
    let payload: Vec<String> = vec!["2".into(), "0 2 * * *".into(), "run".into(), "nightly".into()];
    assert_eq!(
        popup.confirm(true),
        vec![Action::PassData(payload), Action::ChangeMode(Module::Cron)]
    );
    assert!(!popup.is_enabled());
    assert_eq!(popup.job_value(), "");
}
