//! E-mail: the error type, message templates, queued jobs, the placeholder
//! substitution used for custom templates, and the requests that the Resend
//! API is sent.

use vstd::prelude::*;
use vstd::string::*;
use crate::boundary::{
    ascii_lower, ascii_upper, is_ascii_text, lowercase_text, to_lowercase, to_uppercase,
    uppercase_text,
};
use crate::text::{digits_value, law_int_text, lemma_replace_absent, lemma_replace_whole, int_text, i64_text, push_char, chars_of, replace_all, replace_text, text_eq};

verus! {

/// A failure of the e-mail layer.
#[derive(Debug, Clone, PartialEq, Eq)]
pub enum EmailError {
    SendFailed(String),
    InvalidAddress(String),
    TemplateError(String),
    QueueError(String),
    ConfigError(String),
}

impl EmailError {
    /// The text the error is displayed with.
    pub open spec fn text(&self) -> Seq<char> {
        match self {
            EmailError::SendFailed(m) => "Failed to send email: "@ + m@,
            EmailError::InvalidAddress(m) => "Invalid email address: "@ + m@,
            EmailError::TemplateError(m) => "Template rendering failed: "@ + m@,
            EmailError::QueueError(m) => "Queue error: "@ + m@,
            EmailError::ConfigError(m) => "Configuration error: "@ + m@,
        }
    }

    /// The text the error is displayed with.
    pub fn message(&self) -> (s: String)
        ensures
            s@ == self.text(),
    {
        match self {
            EmailError::SendFailed(m) => String::from_str("Failed to send email: ").concat(m.as_str()),
            EmailError::InvalidAddress(m) => String::from_str("Invalid email address: ").concat(
                m.as_str(),
            ),
            EmailError::TemplateError(m) => String::from_str("Template rendering failed: ").concat(
                m.as_str(),
            ),
            EmailError::QueueError(m) => String::from_str("Queue error: ").concat(m.as_str()),
            EmailError::ConfigError(m) => String::from_str("Configuration error: ").concat(
                m.as_str(),
            ),
        }
    }
}

/// A rendered e-mail.
#[derive(Debug, Clone)]
pub struct EmailTemplate {
    pub subject: String,
    pub html: String,
}

/// Alert e-mail up to the header colour.
pub const ALERT_HTML_HEAD: &'static str = "<!DOCTYPE html>\n<html>\n<head>\n    <meta charset=\"utf-8\">\n    <style>\n        body { font-family: Arial, sans-serif; line-height: 1.6; color: #333; }\n        .container { max-width: 600px; margin: 0 auto; padding: 20px; }\n        .header { background: ";

/// Alert e-mail from the header colour to the device name.
pub const ALERT_HTML_DEVICE: &'static str = "; color: white; padding: 20px; text-align: center; }\n        .content { padding: 20px; background: #f9fafb; }\n        .alert-info { background: white; padding: 15px; margin: 10px 0; border-radius: 8px; }\n        .label { font-weight: bold; color: #666; }\n        .footer { text-align: center; padding: 20px; color: #666; font-size: 12px; }\n    </style>\n</head>\n<body>\n    <div class=\"container\">\n        <div class=\"header\">\n            <h1>🔔 Alerta de Monitoreo</h1>\n        </div>\n        <div class=\"content\">\n            <div class=\"alert-info\">\n                <p><span class=\"label\">Dispositivo:</span> ";

/// Alert e-mail from the device name to the alert type.
pub const ALERT_HTML_TYPE: &'static str = "</p>\n                <p><span class=\"label\">Tipo:</span> ";

/// Alert e-mail from the alert type to the severity.
pub const ALERT_HTML_SEVERITY: &'static str = "</p>\n                <p><span class=\"label\">Severidad:</span> ";

/// Alert e-mail from the severity to the message.
pub const ALERT_HTML_MESSAGE: &'static str = "</p>\n                <p><span class=\"label\">Mensaje:</span> ";

/// Alert e-mail after the message.
pub const ALERT_HTML_TAIL: &'static str = "</p>\n            </div>\n            <p>Esta alerta fue generada automáticamente por el sistema de monitoreo.</p>\n        </div>\n        <div class=\"footer\">\n            <p>Monitoreo de Infraestructura Regional - Red.es</p>\n        </div>\n    </div>\n</body>\n</html>";

/// Password-reset e-mail up to the token.
pub const RESET_HTML_HEAD: &'static str = "<!DOCTYPE html>\n<html>\n<head>\n    <meta charset=\"utf-8\">\n    <style>\n        body { font-family: Arial, sans-serif; line-height: 1.6; color: #333; }\n        .container { max-width: 600px; margin: 0 auto; padding: 20px; }\n        .header { background: #2563eb; color: white; padding: 20px; text-align: center; }\n        .content { padding: 20px; background: #f9fafb; }\n        .token { background: #e5e7eb; padding: 15px; font-family: monospace; font-size: 18px; text-align: center; margin: 20px 0; }\n        .warning { background: #fef3c7; padding: 15px; border-left: 4px solid #f59e0b; margin: 15px 0; }\n        .footer { text-align: center; padding: 20px; color: #666; font-size: 12px; }\n    </style>\n</head>\n<body>\n    <div class=\"container\">\n        <div class=\"header\">\n            <h1>🔐 Restablecer Contraseña</h1>\n        </div>\n        <div class=\"content\">\n            <p>Has solicitado restablecer tu contraseña. Usa el siguiente token:</p>\n            <div class=\"token\">";

/// Password-reset e-mail from the token to the hours of validity.
pub const RESET_HTML_EXPIRY: &'static str = "</div>\n            <p>Este token expirará en ";

/// Password-reset e-mail after the hours of validity.
pub const RESET_HTML_TAIL: &'static str = " horas.</p>\n            <div class=\"warning\">\n                <p><strong>⚠️ Importante:</strong> Si no solicitaste este cambio, ignora este email.</p>\n            </div>\n        </div>\n        <div class=\"footer\">\n            <p>Monitoreo de Infraestructura Regional - Red.es</p>\n        </div>\n    </div>\n</body>\n</html>";

/// Header colour of an alert e-mail for a severity, given in lower case.
pub open spec fn severity_color(lower: Seq<char>) -> Seq<char> {
    if lower == "critical"@ {
        "#dc2626"@
    } else if lower == "high"@ {
        "#ea580c"@
    } else if lower == "medium"@ {
        "#ca8a04"@
    } else if lower == "low"@ {
        "#16a34a"@
    } else {
        "#6b7280"@
    }
}

/// Body of the alert e-mail.
pub open spec fn alert_html(
    device_name: Seq<char>,
    alert_type: Seq<char>,
    severity: Seq<char>,
    message: Seq<char>,
) -> Seq<char> {
    ALERT_HTML_HEAD@ + severity_color(lowercase_text(severity)) + ALERT_HTML_DEVICE@ + device_name
        + ALERT_HTML_TYPE@ + alert_type + ALERT_HTML_SEVERITY@ + severity + ALERT_HTML_MESSAGE@
        + message + ALERT_HTML_TAIL@
}

/// Subject of the alert e-mail: `[SEVERITY] Alerta: <device> - <type>`.
pub open spec fn alert_subject(device_name: Seq<char>, alert_type: Seq<char>, severity: Seq<char>) -> Seq<char> {
    "["@ + uppercase_text(severity) + "] Alerta: "@ + device_name + " - "@ + alert_type
}

/// Whether `p` occurs in `s` as a run of consecutive characters.
pub open spec fn occurs_in(p: Seq<char>, s: Seq<char>) -> bool {
    exists|k: int| 0 <= k && k + p.len() <= s.len() && #[trigger] s.subrange(k, k + p.len()) == p
}

/// `p` occurs in any text that is `a`, then `p`, then `b`.
pub proof fn lemma_occurs_between(a: Seq<char>, p: Seq<char>, b: Seq<char>)
    ensures
        occurs_in(p, a + p + b),
{
    let s = a + p + b;
    assert(s.subrange(a.len() as int, (a.len() + p.len()) as int) =~= p);
}

/// The alert e-mail shows each field under its own label: the device name
/// after `Dispositivo:`, the alert type after `Tipo:`, the severity after
/// `Severidad:` and the message after `Mensaje:`, each running up to the
/// next label; its header takes the colour of the severity, read without
/// regard to case. The subject names the severity in capitals, then the
/// device, then the alert type.
pub proof fn law_alert_email_fields(
    device_name: Seq<char>,
    alert_type: Seq<char>,
    severity: Seq<char>,
    message: Seq<char>,
)
    ensures
        occurs_in(
            ALERT_HTML_DEVICE@ + device_name + ALERT_HTML_TYPE@,
            alert_html(device_name, alert_type, severity, message),
        ),
        occurs_in(
            ALERT_HTML_TYPE@ + alert_type + ALERT_HTML_SEVERITY@,
            alert_html(device_name, alert_type, severity, message),
        ),
        occurs_in(
            ALERT_HTML_SEVERITY@ + severity + ALERT_HTML_MESSAGE@,
            alert_html(device_name, alert_type, severity, message),
        ),
        occurs_in(
            ALERT_HTML_MESSAGE@ + message + ALERT_HTML_TAIL@,
            alert_html(device_name, alert_type, severity, message),
        ),
        alert_html(device_name, alert_type, severity, message).take(
            (ALERT_HTML_HEAD@.len() + severity_color(lowercase_text(severity)).len()) as int,
        ) == ALERT_HTML_HEAD@ + severity_color(lowercase_text(severity)),
        alert_subject(device_name, alert_type, severity) == "["@ + uppercase_text(severity)
            + "] Alerta: "@ + device_name + " - "@ + alert_type,
        severity_color("critical"@) == "#dc2626"@,
        severity_color("high"@) == "#ea580c"@,
        severity_color("medium"@) == "#ca8a04"@,
        severity_color("low"@) == "#16a34a"@,
{
    let h = alert_html(device_name, alert_type, severity, message);
    let head = ALERT_HTML_HEAD@ + severity_color(lowercase_text(severity));
    let dev = ALERT_HTML_DEVICE@;
    let typ = ALERT_HTML_TYPE@;
    let sev = ALERT_HTML_SEVERITY@;
    let msg = ALERT_HTML_MESSAGE@;
    let tail = ALERT_HTML_TAIL@;
    assert(h =~= head + (dev + device_name + typ) + (alert_type + sev + severity + msg + message
        + tail));
    lemma_occurs_between(
        head,
        dev + device_name + typ,
        alert_type + sev + severity + msg + message + tail,
    );
    assert(h =~= (head + dev + device_name) + (typ + alert_type + sev) + (severity + msg + message
        + tail));
    lemma_occurs_between(head + dev + device_name, typ + alert_type + sev, severity + msg + message + tail);
    assert(h =~= (head + dev + device_name + typ + alert_type) + (sev + severity + msg) + (message
        + tail));
    lemma_occurs_between(head + dev + device_name + typ + alert_type, sev + severity + msg, message + tail);
    assert(h =~= (head + dev + device_name + typ + alert_type + sev + severity) + (msg + message
        + tail) + Seq::<char>::empty());
    lemma_occurs_between(
        head + dev + device_name + typ + alert_type + sev + severity,
        msg + message + tail,
        Seq::<char>::empty(),
    );
    assert(h.take(head.len() as int) =~= head);
    reveal_strlit("critical");
    reveal_strlit("high");
    reveal_strlit("medium");
    reveal_strlit("low");
    assert("high"@.len() != "critical"@.len());
    assert("medium"@.len() != "critical"@.len());
    assert("medium"@.len() != "high"@.len());
    assert("low"@.len() != "critical"@.len());
    assert("low"@.len() != "high"@.len());
    assert("low"@.len() != "medium"@.len());
}

/// The password-reset e-mail carries the token in its token box and the
/// hours of validity, written in decimal, in its expiry sentence; a reset
/// e-mail from the queue gives a day of validity.
pub proof fn law_reset_email_fields(token: Seq<char>, expiry_hours: i64)
    ensures
        PASSWORD_RESET_EXPIRY_HOURS == 24,
        expiry_hours >= 0 ==> digits_value(int_text(expiry_hours as int)) == expiry_hours,
        occurs_in(RESET_HTML_HEAD@ + token + RESET_HTML_EXPIRY@, password_reset_html(token, expiry_hours)),
        occurs_in(
            RESET_HTML_EXPIRY@ + int_text(expiry_hours as int) + RESET_HTML_TAIL@,
            password_reset_html(token, expiry_hours),
        ),
{
    law_int_text(expiry_hours as int);
    let h = password_reset_html(token, expiry_hours);
    let hours = int_text(expiry_hours as int);
    assert(h =~= Seq::<char>::empty() + (RESET_HTML_HEAD@ + token + RESET_HTML_EXPIRY@) + (hours
        + RESET_HTML_TAIL@));
    lemma_occurs_between(
        Seq::<char>::empty(),
        RESET_HTML_HEAD@ + token + RESET_HTML_EXPIRY@,
        hours + RESET_HTML_TAIL@,
    );
    assert(h =~= (RESET_HTML_HEAD@ + token) + (RESET_HTML_EXPIRY@ + hours + RESET_HTML_TAIL@)
        + Seq::<char>::empty());
    lemma_occurs_between(
        RESET_HTML_HEAD@ + token,
        RESET_HTML_EXPIRY@ + hours + RESET_HTML_TAIL@,
        Seq::<char>::empty(),
    );
}

/// Body of the password-reset e-mail.
pub open spec fn password_reset_html(token: Seq<char>, expiry_hours: i64) -> Seq<char> {
    RESET_HTML_HEAD@ + token + RESET_HTML_EXPIRY@ + int_text(expiry_hours as int) + RESET_HTML_TAIL@
}

/// Subject of the password-reset e-mail.
pub open spec fn password_reset_subject() -> Seq<char> {
    "Restablecer Contraseña - Monitoreo Red.es"@
}

fn severity_color_text(severity: &str) -> (c: String)
    ensures
        c@ == severity_color(lowercase_text(severity@)),
        is_ascii_text(severity@) ==> lowercase_text(severity@) == severity@.map_values(
            |ch: char| ascii_lower(ch),
        ),
{
    let lower = to_lowercase(severity);
    let l = lower.as_str();
    if text_eq(l, "critical") {
        String::from_str("#dc2626")
    } else if text_eq(l, "high") {
        String::from_str("#ea580c")
    } else if text_eq(l, "medium") {
        String::from_str("#ca8a04")
    } else if text_eq(l, "low") {
        String::from_str("#16a34a")
    } else {
        String::from_str("#6b7280")
    }
}

/// The e-mail that notifies an alert.
pub fn alert_notification(device_name: &str, alert_type: &str, severity: &str, message: &str) -> (t:
    EmailTemplate)
    ensures
        t.subject@ == alert_subject(device_name@, alert_type@, severity@),
        t.html@ == alert_html(device_name@, alert_type@, severity@, message@),
        occurs_in(ALERT_HTML_DEVICE@ + device_name@ + ALERT_HTML_TYPE@, t.html@),
        occurs_in(ALERT_HTML_TYPE@ + alert_type@ + ALERT_HTML_SEVERITY@, t.html@),
        occurs_in(ALERT_HTML_SEVERITY@ + severity@ + ALERT_HTML_MESSAGE@, t.html@),
        occurs_in(ALERT_HTML_MESSAGE@ + message@ + ALERT_HTML_TAIL@, t.html@),
        // For an ASCII severity the case changes are the ASCII ones.
        is_ascii_text(severity@) ==> {
            &&& lowercase_text(severity@) == severity@.map_values(|c: char| ascii_lower(c))
            &&& uppercase_text(severity@) == severity@.map_values(|c: char| ascii_upper(c))
        },
{
    proof {
        law_alert_email_fields(device_name@, alert_type@, severity@, message@);
    }
    let color = severity_color_text(severity);
    let mut html = String::from_str(ALERT_HTML_HEAD);
    html.append(color.as_str());
    html.append(ALERT_HTML_DEVICE);
    html.append(device_name);
    html.append(ALERT_HTML_TYPE);
    html.append(alert_type);
    html.append(ALERT_HTML_SEVERITY);
    html.append(severity);
    html.append(ALERT_HTML_MESSAGE);
    html.append(message);
    html.append(ALERT_HTML_TAIL);
    let upper = to_uppercase(severity);
    let mut subject = String::from_str("[");
    subject.append(upper.as_str());
    subject.append("] Alerta: ");
    subject.append(device_name);
    subject.append(" - ");
    subject.append(alert_type);
    EmailTemplate { subject, html }
}

/// The e-mail that carries a password-reset token valid for `expiry_hours`.
pub fn password_reset(token: &str, expiry_hours: i64) -> (t: EmailTemplate)
    ensures
        t.subject@ == password_reset_subject(),
        t.html@ == password_reset_html(token@, expiry_hours),
        occurs_in(RESET_HTML_HEAD@ + token@ + RESET_HTML_EXPIRY@, t.html@),
        occurs_in(RESET_HTML_EXPIRY@ + int_text(expiry_hours as int) + RESET_HTML_TAIL@, t.html@),
{
    proof {
        law_reset_email_fields(token@, expiry_hours);
    }
    let mut html = String::from_str(RESET_HTML_HEAD);
    html.append(token);
    html.append(RESET_HTML_EXPIRY);
    let hours = i64_text(expiry_hours);
    html.append(hours.as_str());
    html.append(RESET_HTML_TAIL);
    EmailTemplate { subject: String::from_str("Restablecer Contraseña - Monitoreo Red.es"), html }
}

/// Hours a password-reset token sent by e-mail stays valid.
pub const PASSWORD_RESET_EXPIRY_HOURS: i64 = 24;

/// What a queued e-mail says.
#[derive(Debug, Clone)]
pub enum EmailJobTemplate {
    AlertNotification { device_name: String, alert_type: String, severity: String, message: String },
    PasswordReset { token: String, expiry_hours: i64 },
}

/// An e-mail waiting in the queue.
#[derive(Debug, Clone)]
pub struct EmailJob {
    pub to: Vec<String>,
    pub template: EmailJobTemplate,
}

impl EmailJobTemplate {
    /// The subject and body of the e-mail this job sends.
    pub fn render(&self) -> (t: EmailTemplate)
        ensures
            match self {
                EmailJobTemplate::AlertNotification { device_name, alert_type, severity, message } => {
                    &&& t.subject@ == alert_subject(device_name@, alert_type@, severity@)
                    &&& t.html@ == alert_html(device_name@, alert_type@, severity@, message@)
                },
                EmailJobTemplate::PasswordReset { token, expiry_hours } => {
                    &&& t.subject@ == password_reset_subject()
                    &&& t.html@ == password_reset_html(token@, *expiry_hours)
                },
            },
    {
        match self {
            EmailJobTemplate::AlertNotification { device_name, alert_type, severity, message } => {
                alert_notification(device_name.as_str(), alert_type.as_str(), severity.as_str(), message.as_str())
            },
            EmailJobTemplate::PasswordReset { token, expiry_hours } => {
                password_reset(token.as_str(), *expiry_hours)
            },
        }
    }
}

impl EmailJob {
    /// The job that notifies `to` of an alert.
    pub fn alert(
        to: Vec<String>,
        device_name: String,
        alert_type: String,
        severity: String,
        message: String,
    ) -> (j: Self)
        ensures
            j.to == to,
            j.template == (EmailJobTemplate::AlertNotification {
                device_name,
                alert_type,
                severity,
                message,
            }),
    {
        EmailJob {
            to,
            template: EmailJobTemplate::AlertNotification { device_name, alert_type, severity, message },
        }
    }

    /// The job that sends `to` a password-reset token valid for 24 hours.
    pub fn password_reset(to: Vec<String>, token: String) -> (j: Self)
        ensures
            j.to == to,
            j.template == (EmailJobTemplate::PasswordReset {
                token,
                expiry_hours: PASSWORD_RESET_EXPIRY_HOURS,
            }),
    {
        EmailJob {
            to,
            template: EmailJobTemplate::PasswordReset {
                token,
                expiry_hours: PASSWORD_RESET_EXPIRY_HOURS,
            },
        }
    }
}

/// The placeholder a template marks a field with: `{{key}}`.
pub open spec fn placeholder(key: Seq<char>) -> Seq<char> {
    "{{"@ + key + "}}"@
}

/// `template` with the placeholder of each field replaced by its value, the
/// fields taken in order.
pub open spec fn render_fields(template: Seq<char>, fields: Seq<(Seq<char>, Seq<char>)>) -> Seq<char>
    decreases fields.len(),
{
    if fields.len() == 0 {
        template
    } else {
        let f = fields.last();
        replace_all(render_fields(template, fields.drop_last()), placeholder(f.0), f.1)
    }
}

/// Filling fields leaves a template without placeholders as it is, and a
/// placeholder `{{key}}` standing alone becomes the field's value; with no
/// field the template is unchanged.
pub proof fn law_placeholders(template: Seq<char>, key: Seq<char>, value: Seq<char>)
    ensures
        render_fields(template, Seq::empty()) == template,
        !occurs_in(placeholder(key), template) ==> render_fields(template, seq![(key, value)])
            == template,
        render_fields(placeholder(key), seq![(key, value)]) == value,
        placeholder(key).len() == key.len() + 4,
{
    reveal_strlit("{{");
    reveal_strlit("}}");
    let one = seq![(key, value)];
    let none = Seq::<(Seq<char>, Seq<char>)>::empty();
    assert(one.drop_last() =~= none);
    assert(one.last() == (key, value));
    assert(render_fields(template, none) == template);
    assert(render_fields(placeholder(key), none) == placeholder(key));
    assert(render_fields(template, one) == replace_all(template, placeholder(key), value));
    assert(render_fields(placeholder(key), one) == replace_all(placeholder(key), placeholder(key), value));
    assert(placeholder(key).len() > 0);
    if !occurs_in(placeholder(key), template) {
        assert forall|k: int|
            0 <= k && k + placeholder(key).len() <= template.len() implies #[trigger] template.subrange(
            k,
            k + placeholder(key).len(),
        ) != placeholder(key) by {}
        lemma_replace_absent(template, placeholder(key), value);
    }
    lemma_replace_whole(placeholder(key), value);
}

/// Plain text never holds a tag bracket from the HTML, and text without
/// brackets keeps every character.
pub proof fn law_strip_tags(s: Seq<char>, in_tag: bool)
    ensures
        forall|i: int|
            0 <= i < strip_tags(s, in_tag).len() ==> #[trigger] strip_tags(s, in_tag)[i] != '<'
                && strip_tags(s, in_tag)[i] != '>',
        (!in_tag && !s.contains('<') && !s.contains('>')) ==> strip_tags(s, in_tag) == s,
    decreases s.len(),
{
    if s.len() > 0 {
        let t = s.drop_first();
        law_strip_tags(t, true);
        law_strip_tags(t, false);
        if !in_tag && !s.contains('<') && !s.contains('>') {
            assert(s[0] != '<' && s[0] != '>') by {
                assert(s.contains(s[0]));
            }
            assert(!t.contains('<') && !t.contains('>')) by {
                if t.contains('<') {
                    let i = choose|i: int| 0 <= i < t.len() && t[i] == '<';
                    assert(s[i + 1] == '<');
                }
                if t.contains('>') {
                    let i = choose|i: int| 0 <= i < t.len() && t[i] == '>';
                    assert(s[i + 1] == '>');
                }
            }
            assert(seq![s[0]] + t =~= s);
        }
        if s[0] == '<' || in_tag && s[0] != '>' {
            assert(strip_tags(s, in_tag) == strip_tags(t, true));
        } else if s[0] == '>' {
            assert(strip_tags(s, in_tag) == strip_tags(t, false));
        } else {
            let r = strip_tags(s, in_tag);
            assert(r == seq![s[0]] + strip_tags(t, false));
            assert forall|i: int| 0 <= i < r.len() implies #[trigger] r[i] != '<' && r[i] != '>' by {
                if i > 0 {
                    assert(r[i] == strip_tags(t, false)[i - 1]);
                }
            }
        }
    }
}

/// The views of a list of fields.
pub open spec fn field_views(fields: Seq<(String, String)>) -> Seq<(Seq<char>, Seq<char>)> {
    fields.map_values(|f: (String, String)| (f.0@, f.1@))
}

/// Fills the placeholders `{{key}}` of `template` with the given fields, in
/// order; each field is the key and the text that replaces its placeholder.
pub fn render_template(template: &str, data: &Vec<(String, String)>) -> (res: Result<String, EmailError>)
    ensures
        res matches Ok(s) && s@ == render_fields(template@, field_views(data@)),
{
    let mut html = String::from_str(template);
    let n = data.len();
    let mut i: usize = 0;
    assert(field_views(data@).take(0) =~= Seq::<(Seq<char>, Seq<char>)>::empty());
    while i < n
        invariant
            n == data@.len(),
            i <= n,
            html@ == render_fields(template@, field_views(data@).take(i as int)),
        decreases n - i,
    {
        let key = &data[i].0;
        let mut pat = String::from_str("{{");
        pat.append(key.as_str());
        pat.append("}}");
        proof {
            reveal_strlit("{{");
        }
        assert(pat@ == placeholder(key@));
        let next = replace_text(html.as_str(), pat.as_str(), data[i].1.as_str());
        html = next;
        proof {
            let fv = field_views(data@);
            assert(fv.take(i + 1).drop_last() =~= fv.take(i as int));
            assert(fv.take(i + 1).last() == fv[i as int]);
        }
        i = i + 1;
    }
    assert(field_views(data@).take(n as int) =~= field_views(data@));
    Ok(html)
}

/// The text left of `s` once tags are removed: `<` opens a tag, `>` closes
/// one, and neither they nor what a tag holds are kept.
pub open spec fn strip_tags(s: Seq<char>, in_tag: bool) -> Seq<char>
    decreases s.len(),
{
    if s.len() == 0 {
        s
    } else if s[0] == '<' {
        strip_tags(s.drop_first(), true)
    } else if s[0] == '>' {
        strip_tags(s.drop_first(), false)
    } else if in_tag {
        strip_tags(s.drop_first(), true)
    } else {
        seq![s[0]] + strip_tags(s.drop_first(), false)
    }
}

/// Plain text of an HTML body: tags removed and `&nbsp;` written as a space.
pub open spec fn plain_text(html: Seq<char>) -> Seq<char> {
    replace_all(strip_tags(html, false), "&nbsp;"@, " "@)
}

/// The plain-text version of an HTML body.
pub fn strip_html(html: &str) -> (s: String)
    ensures
        s@ == plain_text(html@),
{
    let v = chars_of(html);
    let n = v.len();
    let mut out = String::new();
    let mut in_tag = false;
    let mut i: usize = 0;
    assert(v@.skip(0) =~= v@);
    while i < n
        invariant
            n == v@.len(),
            v@ == html@,
            i <= n,
            strip_tags(html@, false) == out@ + strip_tags(v@.skip(i as int), in_tag),
        decreases n - i,
    {
        let c = v[i];
        let ghost rest = v@.skip(i as int);
        assert(rest.drop_first() =~= v@.skip(i + 1));
        if c == '<' {
            in_tag = true;
        } else if c == '>' {
            in_tag = false;
        } else if !in_tag {
            let ghost before = out@;
            push_char(&mut out, c);
            assert(out@ + strip_tags(v@.skip(i + 1), false) =~= before + (seq![c] + strip_tags(
                rest.drop_first(),
                false,
            )));
        }
        i = i + 1;
    }
    assert(v@.skip(n as int) =~= Seq::<char>::empty());
    assert(out@ + Seq::<char>::empty() =~= out@);
    proof {
        reveal_strlit("&nbsp;");
    }
    replace_text(out.as_str(), "&nbsp;", " ")
}

/// Where e-mails are sent: the Resend API's e-mail endpoint.
pub const RESEND_EMAILS_URL: &'static str = "https://api.resend.com/emails";

/// The body of a send request to the Resend API.
#[derive(Debug, Clone)]
pub struct SendEmailRequest {
    pub from: String,
    pub to: Vec<String>,
    pub subject: String,
    pub html: String,
    pub text: Option<String>,
}

/// The Resend account e-mails are sent from: its API key and the sender
/// address. The HTTP connection is the caller's.
#[derive(Debug, Clone)]
pub struct ResendClient {
    api_key: String,
    from_email: String,
}

/// A copy of a list of strings.
fn copy_all(v: &[String]) -> (out: Vec<String>)
    ensures
        out@ == v@,
{
    let n = v.len();
    let mut out: Vec<String> = Vec::new();
    let mut i: usize = 0;
    while i < n
        invariant
            n == v@.len(),
            i <= n,
            out@ =~= v@.take(i as int),
        decreases n - i,
    {
        let item = v[i].clone();
        out.push(item);
        assert(out@ =~= v@.take(i + 1));
        i = i + 1;
    }
    assert(v@.take(n as int) =~= v@);
    out
}

impl ResendClient {
    /// The API key requests are authorised with.
    pub closed spec fn key(&self) -> Seq<char> {
        self.api_key@
    }

    /// The address e-mails are sent from.
    pub closed spec fn sender(&self) -> Seq<char> {
        self.from_email@
    }

    /// A client for the account with key `api_key`, sending from `from_email`.
    pub fn new(api_key: String, from_email: String) -> (c: Self)
        ensures
            c.key() == api_key@,
            c.sender() == from_email@,
    {
        ResendClient { api_key, from_email }
    }

    /// The `Authorization` header of every request: `Bearer <key>`.
    pub fn authorization(&self) -> (h: String)
        ensures
            h@ == "Bearer "@ + self.key(),
    {
        String::from_str("Bearer ").concat(self.api_key.as_str())
    }

    /// The request that sends `html` (and `text`, when given) with subject
    /// `subject` from this account's address to `to`.
    pub fn email_request(&self, to: &[String], subject: &str, html: &str, text: Option<&str>) -> (r:
        SendEmailRequest)
        ensures
            r.from@ == self.sender(),
            r.to@ == to@,
            r.subject@ == subject@,
            r.html@ == html@,
            match text {
                Some(t) => r.text matches Some(x) && x@ == t@,
                None => r.text is None,
            },
    {
        let text = match text {
            Some(t) => Some(String::from_str(t)),
            None => None,
        };
        SendEmailRequest {
            from: self.from_email.clone(),
            to: copy_all(to),
            subject: String::from_str(subject),
            html: String::from_str(html),
            text,
        }
    }

    /// The request that sends `template`, filled with `data`, as its HTML
    /// body and the plain text of that body as its text part.
    pub fn template_request(
        &self,
        to: &[String],
        subject: &str,
        template: &str,
        data: &Vec<(String, String)>,
    ) -> (r: Result<SendEmailRequest, EmailError>)
        ensures
            r matches Ok(req) && {
                &&& req.from@ == self.sender()
                &&& req.to@ == to@
                &&& req.subject@ == subject@
                &&& req.html@ == render_fields(template@, field_views(data@))
                &&& req.text matches Some(t) && t@ == plain_text(req.html@)
            },
    {
        let html = match render_template(template, data) {
            Ok(h) => h,
            Err(e) => return Err(e),
        };
        let text = strip_html(html.as_str());
        Ok(self.email_request(to, subject, html.as_str(), Some(text.as_str())))
    }
}

/// The error of a send the API answered with a failure status: `Status
/// <status>: <body>`.
pub fn send_failure(status: &str, body: &str) -> (e: EmailError)
    ensures
        e matches EmailError::SendFailed(m) && m@ == "Status "@ + status@ + ": "@ + body@,
{
    let mut m = String::from_str("Status ");
    m.append(status);
    m.append(": ");
    m.append(body);
    EmailError::SendFailed(m)
}

/// What a reply of the e-mail service means, given its HTTP status code
/// `code`, the status as shown (`status`, such as `404 Not Found`) and its
/// body: success for a 2xx status; otherwise the send failure that names
/// the status and the body.
pub fn reply_outcome(code: u16, status: &str, body: &str) -> (r: Result<(), EmailError>)
    ensures
        200 <= code < 300 ==> r is Ok,
        !(200 <= code < 300) ==> (r matches Err(EmailError::SendFailed(m)) && m@ == "Status "@
            + status@ + ": "@ + body@),
{
    if 200 <= code && code < 300 {
        Ok(())
    } else {
        Err(send_failure(status, body))
    }
}

/// The error of a job that could not be queued.
pub fn enqueue_failure() -> (e: EmailError)
    ensures
        e matches EmailError::QueueError(m) && m@ == "Failed to enqueue email"@,
{
    EmailError::QueueError(String::from_str("Failed to enqueue email"))
}

impl EmailJob {
    /// The request that sends this job from `client`'s account: the rendered
    /// subject and body, with no text part.
    pub fn send_request(&self, client: &ResendClient) -> (r: SendEmailRequest)
        ensures
            r.from@ == client.sender(),
            r.to@ == self.to@,
            r.subject@ == match self.template {
                EmailJobTemplate::AlertNotification { device_name, alert_type, severity, .. } =>
                    alert_subject(device_name@, alert_type@, severity@),
                EmailJobTemplate::PasswordReset { .. } => password_reset_subject(),
            },
            r.html@ == match self.template {
                EmailJobTemplate::AlertNotification { device_name, alert_type, severity, message } =>
                    alert_html(device_name@, alert_type@, severity@, message@),
                EmailJobTemplate::PasswordReset { token, expiry_hours } =>
                    password_reset_html(token@, expiry_hours),
            },
            r.text is None,
    {
        let t = self.template.render();
        client.email_request(self.to.as_slice(), t.subject.as_str(), t.html.as_str(), None)
    }
}

} // verus!
