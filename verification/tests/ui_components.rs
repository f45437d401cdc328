use rustpress::ui::{alert_classes, alert_style, button_view, shows_hint, AlertVariant, ButtonElement, ButtonVariant};

#[test]
fn buttons_render_as_links_spinners_or_buttons() {
    let link = button_view(ButtonVariant::Primary, false, true, "", "", "/admin");
    assert_eq!(link.element, ButtonElement::Link);
    let busy = button_view(ButtonVariant::Primary, false, true, "", "", "");
    assert_eq!(busy.element, ButtonElement::Loading);
    assert!(busy.disabled);
    assert_eq!(busy.loading_text, "Loading...");
    assert_eq!(busy.button_type, "submit");
    let plain = button_view(ButtonVariant::Outlined, false, false, "Saving", "button", "");
    assert_eq!(plain.element, ButtonElement::Plain);
    assert!(!plain.disabled);
    assert_eq!(plain.loading_text, "Saving");
    assert_eq!(plain.button_type, "button");
    assert!(plain.classes.starts_with("inline-flex items-center"));
    assert!(plain.classes.contains(" border border-slate-700 "));
    assert!(plain.classes.ends_with(" disabled:opacity-50 disabled:cursor-not-allowed"));
    assert_eq!(ButtonVariant::default(), ButtonVariant::Primary);
}

#[test]
fn alerts_are_styled_by_variant() {
    assert_eq!(alert_style(AlertVariant::Error).0, "✕");
    assert_eq!(alert_style(AlertVariant::default()).0, "✓");
    assert_eq!(
        alert_classes(AlertVariant::Success),
        "mb-6 p-4 rounded-lg border text-sm bg-emerald-500/10 border-emerald-500/30 text-emerald-400"
    );
    assert!(shows_hint("at least 12 characters"));
    assert!(!shows_hint(""));
}
