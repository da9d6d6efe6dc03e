use monitoreo::email::{
    alert_notification, enqueue_failure, password_reset, render_template, reply_outcome, send_failure, strip_html,
    EmailError, EmailJob, EmailJobTemplate, ResendClient, PASSWORD_RESET_EXPIRY_HOURS,
};

#[test]
fn test_render_template() {
    let template = "<h1>Hello {{name}}</h1>";
    let data = vec![("name".to_string(), "Admin".to_string())];
    let result = render_template(template, &data).unwrap();
    assert_eq!(result, "<h1>Hello Admin</h1>");
}

#[test]
fn test_strip_html() {
    let html = "<h1>Hello</h1>";
    let result = strip_html(html);
    assert_eq!(result, "Hello");
}

#[test]
fn render_template_fills_every_placeholder_in_order() {
    let data = vec![
        ("a".to_string(), "{{b}}".to_string()),
        ("b".to_string(), "x".to_string()),
    ];
    let result = render_template("{{a}}-{{b}}-{{c}}", &data).unwrap();
    assert_eq!(result, "x-x-{{c}}");
}

#[test]
fn render_template_without_fields_keeps_template() {
    let result = render_template("plain {{x}}", &Vec::new()).unwrap();
    assert_eq!(result, "plain {{x}}");
}

#[test]
fn strip_html_writes_nbsp_as_space() {
    assert_eq!(strip_html("<p>a&nbsp;b</p><br/>c"), "a bc");
}

#[test]
fn alert_notification_subject_and_colour() {
    let t = alert_notification("sw-01", "DeviceOffline", "Critical", "down");
    assert_eq!(t.subject, "[CRITICAL] Alerta: sw-01 - DeviceOffline");
    assert!(t.html.contains("#dc2626"));
    assert!(t.html.contains("<span class=\"label\">Dispositivo:</span> sw-01</p>"));
    assert!(t.html.contains("<span class=\"label\">Mensaje:</span> down</p>"));
}

#[test]
fn alert_notification_unknown_severity_is_grey() {
    let t = alert_notification("ap", "Intrusion", "weird", "m");
    assert!(t.html.contains("#6b7280"));
    assert_eq!(t.subject, "[WEIRD] Alerta: ap - Intrusion");
}

#[test]
fn password_reset_template() {
    let t = password_reset("tok123", 24);
    assert_eq!(t.subject, "Restablecer Contraseña - Monitoreo Red.es");
    assert!(t.html.contains("<div class=\"token\">tok123</div>"));
    assert!(t.html.contains("expirará en 24 horas."));
}

#[test]
fn password_reset_job_lasts_a_day() {
    let job = EmailJob::password_reset(vec!["a@b.c".to_string()], "tk".to_string());
    assert_eq!(PASSWORD_RESET_EXPIRY_HOURS, 24);
    match &job.template {
        EmailJobTemplate::PasswordReset { token, expiry_hours } => {
            assert_eq!(token, "tk");
            assert_eq!(*expiry_hours, 24);
        }
        _ => panic!("wrong template"),
    }
}

#[test]
fn job_send_request_uses_rendered_template() {
    let client = ResendClient::new("key".to_string(), "noreply@x.es".to_string());
    let job = EmailJob::alert(
        vec!["ops@x.es".to_string()],
        "fw".to_string(),
        "PacketLoss".to_string(),
        "High".to_string(),
        "loss".to_string(),
    );
    let req = job.send_request(&client);
    assert_eq!(req.from, "noreply@x.es");
    assert_eq!(req.to, vec!["ops@x.es".to_string()]);
    assert_eq!(req.subject, "[HIGH] Alerta: fw - PacketLoss");
    assert!(req.html.contains("#ea580c"));
    assert!(req.text.is_none());
}

#[test]
fn client_authorization_and_template_request() {
    let client = ResendClient::new("re_123".to_string(), "from@x.es".to_string());
    assert_eq!(client.authorization(), "Bearer re_123");
    let data = vec![("name".to_string(), "Ana".to_string())];
    let to = vec!["ana@x.es".to_string()];
    let req = client.template_request(&to, "Hola", "<b>Hola {{name}}</b>", &data).unwrap();
    assert_eq!(req.html, "<b>Hola Ana</b>");
    assert_eq!(req.text, Some("Hola Ana".to_string()));
    assert_eq!(req.subject, "Hola");
}

#[test]
fn email_request_keeps_text_part() {
    let client = ResendClient::new("k".to_string(), "f@x.es".to_string());
    let to = vec!["a@x.es".to_string(), "b@x.es".to_string()];
    let req = client.email_request(&to, "s", "<i>h</i>", Some("h"));
    assert_eq!(req.to, to);
    assert_eq!(req.text, Some("h".to_string()));
}

#[test]
fn email_errors_and_messages() {
    let e = send_failure("404 Not Found", "missing");
    assert_eq!(e, EmailError::SendFailed("Status 404 Not Found: missing".to_string()));
    assert_eq!(e.message(), "Failed to send email: Status 404 Not Found: missing");
    let q = enqueue_failure();
    assert_eq!(q.message(), "Queue error: Failed to enqueue email");
    assert_eq!(EmailError::InvalidAddress("x".to_string()).message(), "Invalid email address: x");
    assert_eq!(EmailError::TemplateError("t".to_string()).message(), "Template rendering failed: t");
    assert_eq!(EmailError::ConfigError("c".to_string()).message(), "Configuration error: c");
}

#[test]
fn service_replies_are_classified_by_status() {
    assert_eq!(reply_outcome(200, "200 OK", "{}"), Ok(()));
    assert_eq!(reply_outcome(299, "299", ""), Ok(()));
    assert_eq!(
        reply_outcome(422, "422 Unprocessable Entity", "bad from"),
        Err(EmailError::SendFailed("Status 422 Unprocessable Entity: bad from".to_string()))
    );
    assert!(reply_outcome(300, "300 Multiple Choices", "").is_err());
    assert!(reply_outcome(199, "199", "").is_err());
}
