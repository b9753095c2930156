use qol_cli::activity::activity_row;
use qol_cli::dash::Activity;
use std::time::Duration;

#[test]
fn activity_row_drops_the_separator_when_no_detail_is_known_yet() {
    let cases = [("build", "qol-tray dev", " ● build · qol-tray dev · 0m12s "), ("fixing", "", " ● fixing · 0m12s ")];
    for (phase, detail, expected) in cases {
        let activity = Activity {
            title: "reload".to_string(),
            phase: phase.to_string(),
            detail: detail.to_string(),
            elapsed: Duration::from_secs(12),
        };
        let text: String = activity_row(&activity).iter().map(|p| p.text.as_str()).collect();
        assert_eq!(text, expected, "phase: {phase}");
    }
}
