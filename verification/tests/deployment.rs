use talos::{JetsonHardeningConfig, JetsonHardeningPlan};

#[test]
fn default_plan_sets_power_mode_and_locks_clocks() {
    let plan = JetsonHardeningConfig::default().plan();

    assert!(plan
        .commands
        .iter()
        .any(|command| command.command == "sudo nvpmodel -m 0"));
    assert!(plan
        .commands
        .iter()
        .any(|command| command.command == "sudo jetson_clocks"));
    assert!(plan.commands.iter().any(|command| !command.mutates_system));
}

#[test]
fn no_clock_plan_only_sets_power_mode_and_status() {
    let plan = JetsonHardeningConfig {
        nvpmodel_mode: Some(1),
        lock_clocks: false,
    }
    .plan();

    assert!(plan
        .commands
        .iter()
        .any(|command| command.command == "sudo nvpmodel -m 1"));
    assert!(!plan
        .commands
        .iter()
        .any(|command| command.command == "sudo jetson_clocks"));
}

#[test]
fn status_plan_does_not_mutate_system() {
    let plan = JetsonHardeningPlan::status_plan();

    assert!(!plan.commands.is_empty());
    assert!(plan.commands.iter().all(|command| !command.mutates_system));
}

#[test]
fn rendered_plan_marks_mutating_commands() {
    let rendered = JetsonHardeningConfig::default().plan().render();

    assert!(rendered.contains("[apply] set_nvpmodel"));
    assert!(rendered.contains("[status] nvpmodel_status"));
}

#[test]
fn multi_digit_power_mode_is_written_in_decimal() {
    let plan = JetsonHardeningConfig {
        nvpmodel_mode: Some(255),
        lock_clocks: true,
    }
    .plan();

    assert_eq!(plan.commands[0].command, "sudo nvpmodel -m 255");
    assert_eq!(plan.commands[0].label, "set_nvpmodel");
    assert_eq!(plan.commands[1].command, "sudo jetson_clocks");
    assert_eq!(plan.commands.len(), 7);
}

#[test]
fn plan_without_mode_or_clocks_is_the_status_plan() {
    let plan = JetsonHardeningConfig {
        nvpmodel_mode: None,
        lock_clocks: false,
    }
    .plan();

    assert_eq!(plan, JetsonHardeningPlan::status_plan());
}

#[test]
fn restore_plan_restores_then_shows_clocks() {
    let plan = JetsonHardeningConfig::restore_plan();

    assert_eq!(plan.commands.len(), 2);
    assert_eq!(plan.commands[0].command, "sudo jetson_clocks --restore");
    assert!(plan.commands[0].mutates_system);
    assert_eq!(plan.commands[1].label, "show_clocks");
    assert!(!plan.commands[1].mutates_system);
}

#[test]
fn rendered_restore_plan_is_exact() {
    let rendered = JetsonHardeningConfig::restore_plan().render();

    assert_eq!(
        rendered,
        "[apply] restore_clocks: sudo jetson_clocks --restore\n[status] show_clocks: sudo -n jetson_clocks --show 2>/dev/null || true"
    );
}
