//! The presentation choices of the interface components: how a button is
//! shown for its variant and state, and how an alert is styled.

use vstd::prelude::*;
use vstd::string::StringExecFns;

verus! {

/// The look of a button.
#[derive(Debug, Clone, Copy, PartialEq, Eq, Structural)]
pub enum ButtonVariant {
    /// Filled with the accent gradient.
    Primary,
    /// Only a border, on the page's background.
    Outlined,
}

impl Default for ButtonVariant {
    fn default() -> (r: Self)
        ensures
            r == ButtonVariant::Primary,
    {
        ButtonVariant::Primary
    }
}

/// The classes every button has.
pub open spec fn button_base_classes() -> Seq<char> {
    "inline-flex items-center justify-center px-8 py-4 text-lg font-semibold rounded-lg transition-all duration-200 focus:outline-none focus:ring-2 focus:ring-offset-2 focus:ring-offset-slate-950"@
}

/// The classes of a variant.
pub open spec fn button_variant_classes(v: ButtonVariant) -> Seq<char> {
    match v {
        ButtonVariant::Primary => "bg-gradient-to-r from-orange-500 to-amber-500 text-white hover:from-orange-600 hover:to-amber-600 hover:shadow-lg hover:shadow-orange-500/25 focus:ring-orange-500"@,
        ButtonVariant::Outlined => "border border-slate-700 text-slate-300 hover:border-slate-500 hover:text-white hover:bg-slate-800/50 focus:ring-slate-500"@,
    }
}

/// Which element a button renders as.
#[derive(Debug, Clone, Copy, PartialEq, Eq, Structural)]
pub enum ButtonElement {
    /// A link to the given address.
    Link,
    /// A button showing a spinner and the loading text.
    Loading,
    /// A button showing its children.
    Plain,
}

/// Everything a button needs to be drawn.
pub struct ButtonView {
    pub element: ButtonElement,
    pub classes: String,
    pub disabled: bool,
    pub loading_text: String,
    pub button_type: String,
}

/// How a button is drawn: a link when it has an address, else a button that
/// is disabled while loading and shows `Loading...` unless told otherwise;
/// its type is `submit` unless given.
pub fn button_view(
    variant: ButtonVariant,
    disabled: bool,
    loading: bool,
    loading_text: &str,
    button_type: &str,
    href: &str,
) -> (r: ButtonView)
    ensures
        r.element == (if href@.len() > 0 {
            ButtonElement::Link
        } else if loading {
            ButtonElement::Loading
        } else {
            ButtonElement::Plain
        }),
        r.classes@ == button_base_classes() + " "@ + button_variant_classes(variant)
            + " disabled:opacity-50 disabled:cursor-not-allowed"@,
        r.disabled == (disabled || loading),
        r.loading_text@ == (if loading_text@.len() == 0 {
            "Loading..."@
        } else {
            loading_text@
        }),
        r.button_type@ == (if button_type@.len() == 0 {
            "submit"@
        } else {
            button_type@
        }),
{
    let mut classes = String::from_str(
        "inline-flex items-center justify-center px-8 py-4 text-lg font-semibold rounded-lg transition-all duration-200 focus:outline-none focus:ring-2 focus:ring-offset-2 focus:ring-offset-slate-950",
    );
    classes.append(" ");
    match variant {
        ButtonVariant::Primary => classes.append(
            "bg-gradient-to-r from-orange-500 to-amber-500 text-white hover:from-orange-600 hover:to-amber-600 hover:shadow-lg hover:shadow-orange-500/25 focus:ring-orange-500",
        ),
        ButtonVariant::Outlined => classes.append(
            "border border-slate-700 text-slate-300 hover:border-slate-500 hover:text-white hover:bg-slate-800/50 focus:ring-slate-500",
        ),
    }
    classes.append(" disabled:opacity-50 disabled:cursor-not-allowed");
    let element = if href.unicode_len() > 0 {
        ButtonElement::Link
    } else if loading {
        ButtonElement::Loading
    } else {
        ButtonElement::Plain
    };
    ButtonView {
        element,
        classes,
        disabled: disabled || loading,
        loading_text: if loading_text.unicode_len() == 0 {
            String::from_str("Loading...")
        } else {
            String::from_str(loading_text)
        },
        button_type: if button_type.unicode_len() == 0 {
            String::from_str("submit")
        } else {
            String::from_str(button_type)
        },
    }
}

/// The kind of an alert.
#[derive(Debug, Clone, Copy, PartialEq, Eq, Structural)]
pub enum AlertVariant {
    Success,
    Error,
}

impl Default for AlertVariant {
    fn default() -> (r: Self)
        ensures
            r == AlertVariant::Success,
    {
        AlertVariant::Success
    }
}

/// The icon and the colour classes of an alert.
pub fn alert_style(variant: AlertVariant) -> (r: (&'static str, &'static str))
    ensures
        variant == AlertVariant::Success ==> r.0@ == "✓"@ && r.1@
            == "bg-emerald-500/10 border-emerald-500/30 text-emerald-400"@,
        variant == AlertVariant::Error ==> r.0@ == "✕"@ && r.1@
            == "bg-red-500/10 border-red-500/30 text-red-400"@,
{
    match variant {
        AlertVariant::Success => ("✓", "bg-emerald-500/10 border-emerald-500/30 text-emerald-400"),
        AlertVariant::Error => ("✕", "bg-red-500/10 border-red-500/30 text-red-400"),
    }
}

/// The classes of an alert's box.
pub fn alert_classes(variant: AlertVariant) -> (r: String)
    ensures
        r@ == "mb-6 p-4 rounded-lg border text-sm "@ + match variant {
            AlertVariant::Success => "bg-emerald-500/10 border-emerald-500/30 text-emerald-400"@,
            AlertVariant::Error => "bg-red-500/10 border-red-500/30 text-red-400"@,
        },
{
    let (_, classes) = alert_style(variant);
    let mut r = String::from_str("mb-6 p-4 rounded-lg border text-sm ");
    r.append(classes);
    r
}

/// Whether a form field shows its hint: only when there is one.
pub fn shows_hint(hint: &str) -> (r: bool)
    ensures
        r == (hint@.len() > 0),
{
    hint.unicode_len() > 0
}

} // verus!
