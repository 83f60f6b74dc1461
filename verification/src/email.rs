//! Notifications by email.

use vstd::prelude::*;

verus! {

/// Where and how to send notifications.
#[derive(Debug)]
pub struct EmailConfig {
    pub smtp_host: String,
    pub smtp_port: u16,
    pub smtp_username: String,
    pub smtp_password: String,
    pub from_email: String,
    pub to_email: String,
}

/// An email, and the server to hand it to.
#[derive(Debug)]
pub struct EmailNotification {
    pub from: String,
    pub to: String,
    pub subject: String,
    pub body: String,
    pub smtp_host: String,
    pub smtp_port: u16,
    pub smtp_username: String,
    pub smtp_password: String,
}

/// What becomes of a notification.
#[derive(Debug)]
pub enum NotificationPlan {
    /// No email is configured, so none is sent.
    Disabled,
    /// The address of the sender is not an email address.
    InvalidFrom,
    /// The address of the recipient is not an email address.
    InvalidTo,
    /// The email is sent.
    Send(EmailNotification),
}

/// An [`EmailConfig`] as a mathematical value.
pub struct EmailConfigView {
    pub smtp_host: Seq<char>,
    pub smtp_port: u16,
    pub smtp_username: Seq<char>,
    pub smtp_password: Seq<char>,
    pub from_email: Seq<char>,
    pub to_email: Seq<char>,
}

/// An [`EmailNotification`] as a mathematical value.
pub struct NotificationView {
    pub from: Seq<char>,
    pub to: Seq<char>,
    pub subject: Seq<char>,
    pub body: Seq<char>,
    pub smtp_host: Seq<char>,
    pub smtp_port: u16,
    pub smtp_username: Seq<char>,
    pub smtp_password: Seq<char>,
}

/// A [`NotificationPlan`] as a mathematical value.
pub enum PlanView {
    Disabled,
    InvalidFrom,
    InvalidTo,
    Send(NotificationView),
}

impl View for EmailConfig {
    type V = EmailConfigView;

    open spec fn view(&self) -> EmailConfigView {
        EmailConfigView {
            smtp_host: self.smtp_host@,
            smtp_port: self.smtp_port,
            smtp_username: self.smtp_username@,
            smtp_password: self.smtp_password@,
            from_email: self.from_email@,
            to_email: self.to_email@,
        }
    }
}

impl View for EmailNotification {
    type V = NotificationView;

    open spec fn view(&self) -> NotificationView {
        NotificationView {
            from: self.from@,
            to: self.to@,
            subject: self.subject@,
            body: self.body@,
            smtp_host: self.smtp_host@,
            smtp_port: self.smtp_port,
            smtp_username: self.smtp_username@,
            smtp_password: self.smtp_password@,
        }
    }
}

impl View for NotificationPlan {
    type V = PlanView;

    open spec fn view(&self) -> PlanView {
        match self {
            NotificationPlan::Disabled => PlanView::Disabled,
            NotificationPlan::InvalidFrom => PlanView::InvalidFrom,
            NotificationPlan::InvalidTo => PlanView::InvalidTo,
            NotificationPlan::Send(email) => PlanView::Send(email@),
        }
    }
}

/// An email configuration, or nothing, by its view.
pub open spec fn email_option(config: Option<EmailConfig>) -> Option<EmailConfigView> {
    match config {
        Some(c) => Some(c@),
        None => None,
    }
}

/// Whether `lettre::Address::from_str` takes a text for an email address.
pub uninterp spec fn email_address(text: Seq<char>) -> bool;

/// Whether `lettre::Address::from_str` accepts a text. It keeps an accepted text
/// as it is. The contract names the answer [`email_address`], and says that an
/// address has an `@`.
#[verifier::external_body]
fn is_email_address(text: &str) -> (accepted: bool)
    ensures
        accepted == email_address(text@),
        accepted ==> text@.contains('@'),
{
    text.parse::<lettre::Address>().is_ok()
}

/// What becomes of a notification, given whether the two addresses are email
/// addresses.
pub open spec fn notification_plan(
    config: Option<EmailConfigView>,
    message: Seq<char>,
    from_valid: bool,
    to_valid: bool,
) -> PlanView {
    match config {
        None => PlanView::Disabled,
        Some(c) => if !from_valid {
            PlanView::InvalidFrom
        } else if !to_valid {
            PlanView::InvalidTo
        } else {
            PlanView::Send(
                NotificationView {
                    from: c.from_email,
                    to: c.to_email,
                    subject: "Replication Event Failure"@,
                    body: message,
                    smtp_host: c.smtp_host,
                    smtp_port: c.smtp_port,
                    smtp_username: c.smtp_username,
                    smtp_password: c.smtp_password,
                },
            )
        },
    }
}

/// What becomes of a notification, given whether the two addresses are email
/// addresses.
pub fn plan_notification(
    config: &Option<EmailConfig>,
    message: &str,
    from_valid: bool,
    to_valid: bool,
) -> (plan: NotificationPlan)
    ensures
        plan@ == notification_plan(email_option(*config), message@, from_valid, to_valid),
{
    match config {
        None => NotificationPlan::Disabled,
        Some(c) => {
            if !from_valid {
                return NotificationPlan::InvalidFrom;
            }
            if !to_valid {
                return NotificationPlan::InvalidTo;
            }
            NotificationPlan::Send(
                EmailNotification {
                    from: c.from_email.clone(),
                    to: c.to_email.clone(),
                    subject: "Replication Event Failure".to_string(),
                    body: message.to_string(),
                    smtp_host: c.smtp_host.clone(),
                    smtp_port: c.smtp_port,
                    smtp_username: c.smtp_username.clone(),
                    smtp_password: c.smtp_password.clone(),
                },
            )
        },
    }
}

/// What becomes of a notification.
pub fn compose_notification(config: &Option<EmailConfig>, message: &str) -> (plan:
    NotificationPlan)
    ensures
        plan@ == (match email_option(*config) {
            None => PlanView::Disabled,
            Some(c) => notification_plan(
                Some(c),
                message@,
                email_address(c.from_email),
                email_address(c.to_email),
            ),
        }),
{
    match config {
        None => NotificationPlan::Disabled,
        Some(c) => {
            let from_valid = is_email_address(c.from_email.as_str());
            let to_valid = is_email_address(c.to_email.as_str());
            plan_notification(config, message, from_valid, to_valid)
        },
    }
}

/// With a configuration and two valid addresses, the notification goes from the
/// one to the other through the configured server, with the given text and nothing
/// else; without them it does not go.
pub proof fn law_a_notification_has_all_its_parts(
    config: EmailConfigView,
    message: Seq<char>,
    from_valid: bool,
    to_valid: bool,
)
    ensures
        notification_plan(None, message, from_valid, to_valid) is Disabled,
        ({
            let plan = notification_plan(Some(config), message, from_valid, to_valid);
            &&& plan is InvalidFrom <==> !from_valid
            &&& plan is InvalidTo <==> from_valid && !to_valid
            &&& plan is Send <==> from_valid && to_valid
            &&& plan matches PlanView::Send(email) ==> {
                &&& email.from == config.from_email
                &&& email.to == config.to_email
                &&& email.subject == "Replication Event Failure"@
                &&& email.body == message
                &&& email.smtp_host == config.smtp_host
                &&& email.smtp_port == config.smtp_port
                &&& email.smtp_username == config.smtp_username
                &&& email.smtp_password == config.smtp_password
            }
        }),
{
}

/// The view of an email configuration leaves nothing out.
pub proof fn law_an_email_configuration_is_seen_whole(config: EmailConfig)
    ensures
        config@.smtp_host == config.smtp_host@,
        config@.smtp_port == config.smtp_port,
        config@.smtp_username == config.smtp_username@,
        config@.smtp_password == config.smtp_password@,
        config@.from_email == config.from_email@,
        config@.to_email == config.to_email@,
        email_option(Some(config)) == Some(config@),
        email_option(None) is None,
{
}

/// The views of a notification and of a plan leave nothing out.
pub proof fn law_a_notification_is_seen_whole(email: EmailNotification)
    ensures
        email@.from == email.from@,
        email@.to == email.to@,
        email@.subject == email.subject@,
        email@.body == email.body@,
        email@.smtp_host == email.smtp_host@,
        email@.smtp_port == email.smtp_port,
        email@.smtp_username == email.smtp_username@,
        email@.smtp_password == email.smtp_password@,
        NotificationPlan::Disabled@ == PlanView::Disabled,
        NotificationPlan::InvalidFrom@ == PlanView::InvalidFrom,
        NotificationPlan::InvalidTo@ == PlanView::InvalidTo,
        NotificationPlan::Send(email)@ == PlanView::Send(email@),
{
}

} // verus!
