//! Agent platforms the runtime delivers to: what each one is, how the
//! OpenClaw gateway is found, which provider a configuration selects, and
//! how an HTTP exchange with a platform turns into a delivery result.

use vstd::prelude::*;
use vstd::string::*;
use crate::config::Config;
use crate::message::{DeliveryResult, DeliveryView, Message, text_or, opt_text};
use crate::text::{decimal, decimal_string};
use crate::payload::{
    json_object_pretty, json_object_text, message_fields, message_members, object_pretty,
    object_text, openclaw_fields, openclaw_members, stdout_fields, stdout_members,
};
use crate::wire::{OpenClawSettings, OpenClawSettingsView, decode_openclaw_settings, openclaw_settings};

verus! {

/// Descriptive facts about a provider.
pub struct ProviderInfo {
    pub name: &'static str,
    pub display_name: &'static str,
    pub version: &'static str,
    pub config_paths: Vec<&'static str>,
    pub docs_url: &'static str,
}

/// How an HTTP exchange with a platform ended: a response with its status
/// code (and the status as text, such as `503 Service Unavailable`), or a
/// transport error, marked transient when it was a timeout or a failure to
/// connect.
pub enum HttpOutcome {
    Status { code: u16, text: String },
    Transport { transient: bool, text: String },
}

/// A 2xx status.
pub open spec fn is_success(code: u16) -> bool {
    200 <= code < 300
}

/// A 5xx status.
pub open spec fn is_server_error(code: u16) -> bool {
    500 <= code < 600
}

/// The generic classification, used by the webhook provider: a 2xx
/// response is delivered, a 5xx response or a transient transport error is
/// retried, anything else fails; the reason is the status or error text.
pub open spec fn webhook_result(o: HttpOutcome) -> DeliveryView {
    match o {
        HttpOutcome::Status { code, text } => if is_success(code) {
            DeliveryView::Delivered
        } else if is_server_error(code) {
            DeliveryView::Retry(text@)
        } else {
            DeliveryView::Failed(text@)
        },
        HttpOutcome::Transport { transient, text } => if transient {
            DeliveryView::Retry(text@)
        } else {
            DeliveryView::Failed(text@)
        },
    }
}

/// The webhook provider's result for an HTTP exchange.
pub fn classify_webhook(o: &HttpOutcome) -> (r: DeliveryResult)
    ensures
        r@ == webhook_result(*o),
{
    match o {
        HttpOutcome::Status { code, text } => {
            if 200 <= *code && *code < 300 {
                DeliveryResult::Delivered
            } else if 500 <= *code && *code < 600 {
                DeliveryResult::Retry(text.clone())
            } else {
                DeliveryResult::Failed(text.clone())
            }
        },
        HttpOutcome::Transport { transient, text } => {
            if *transient {
                DeliveryResult::Retry(text.clone())
            } else {
                DeliveryResult::Failed(text.clone())
            }
        },
    }
}

/// Posts messages to a URL.
pub struct WebhookProvider {
    url: String,
}

impl View for WebhookProvider {
    type V = Seq<char>;

    closed spec fn view(&self) -> Seq<char> {
        self.url@
    }
}

impl WebhookProvider {
    pub fn new(url: String) -> (p: Self)
        ensures
            p@ == url@,
    {
        Self { url }
    }

    /// The JSON body posted for `msg`.
    pub fn payload(msg: &Message) -> (t: String)
        ensures
            t@ == json_object_text(message_members(msg@)),
    {
        object_text(&message_fields(msg))
    }

    /// The URL messages are posted to.
    pub fn url(&self) -> (u: &String)
        ensures
            u@ == self@,
    {
        &self.url
    }

    pub fn info(&self) -> (i: ProviderInfo)
        ensures
            i.name@ == "webhook"@,
            i.display_name@ == "Webhook"@,
            i.version@ == "-"@,
            i.config_paths@.len() == 0,
            i.docs_url@ == ""@,
    {
        ProviderInfo {
            name: "webhook",
            display_name: "Webhook",
            version: "-",
            config_paths: Vec::new(),
            docs_url: "",
        }
    }
}

/// Prints messages as JSON lines on standard output.
pub struct StdoutProvider;

impl StdoutProvider {
    /// The JSON line printed for `msg`.
    pub fn line(msg: &Message) -> (t: String)
        ensures
            t@ == json_object_text(stdout_members(msg@)),
    {
        object_text(&stdout_fields(msg))
    }

    pub fn info(&self) -> (i: ProviderInfo)
        ensures
            i.name@ == "stdout"@,
            i.display_name@ == "Stdout"@,
            i.version@ == "-"@,
            i.config_paths@.len() == 0,
            i.docs_url@ == ""@,
    {
        ProviderInfo {
            name: "stdout",
            display_name: "Stdout",
            version: "-",
            config_paths: Vec::new(),
            docs_url: "",
        }
    }
}

/// Writes each message as a JSON file into a directory.
pub struct FileProvider {
    output_dir: String,
}

impl View for FileProvider {
    type V = Seq<char>;

    closed spec fn view(&self) -> Seq<char> {
        self.output_dir@
    }
}

impl FileProvider {
    pub fn new(dir: String) -> (p: Self)
        ensures
            p@ == dir@,
    {
        Self { output_dir: dir }
    }

    /// The directory messages are written into.
    pub fn output_dir(&self) -> (d: &String)
        ensures
            d@ == self@,
    {
        &self.output_dir
    }

    /// The pretty-printed JSON written for `msg`.
    pub fn content(msg: &Message) -> (t: String)
        ensures
            t@ == json_object_pretty(message_members(msg@)),
    {
        object_pretty(&message_fields(msg))
    }

    /// The name of the file a message is written to: its id and `.json`.
    pub fn file_name(msg: &Message) -> (n: String)
        ensures
            n@ == msg.id@ + ".json"@,
    {
        let mut n = msg.id.clone();
        n.append(".json");
        n
    }

    pub fn info(&self) -> (i: ProviderInfo)
        ensures
            i.name@ == "file"@,
            i.display_name@ == "File Output"@,
            i.version@ == "-"@,
            i.config_paths@.len() == 0,
            i.docs_url@ == ""@,
    {
        ProviderInfo {
            name: "file",
            display_name: "File Output",
            version: "-",
            config_paths: Vec::new(),
            docs_url: "",
        }
    }
}

/// The OpenClaw gateway port used when none is configured.
pub const OPENCLAW_DEFAULT_PORT: u16 = 18789;

/// `http://127.0.0.1:{port}{path}`.
pub open spec fn local_url(port: u16, path: Seq<char>) -> Seq<char> {
    "http://127.0.0.1:"@ + decimal(port as nat) + path
}

/// The local URL with a port and a path.
pub fn local_url_for(port: u16, path: &str) -> (u: String)
    ensures
        u@ == local_url(port, path@),
{
    let mut u = "http://127.0.0.1:".to_owned();
    let d = decimal_string(port as u64);
    u.append(d.as_str());
    u.append(path);
    u
}

/// Model of an [`OpenClawProvider`].
pub struct OpenClawView {
    pub hooks_url: Seq<char>,
    pub hooks_token: Seq<char>,
    pub port: u16,
}

/// Delivers to an OpenClaw gateway through its `/hooks/agent` endpoint.
pub struct OpenClawProvider {
    hooks_url: String,
    hooks_token: String,
    port: u16,
}

impl View for OpenClawProvider {
    type V = OpenClawView;

    closed spec fn view(&self) -> OpenClawView {
        OpenClawView { hooks_url: self.hooks_url@, hooks_token: self.hooks_token@, port: self.port }
    }
}

/// The provider that OpenClaw settings describe: hooks must be enabled and
/// carry a token; the gateway port defaults to 18789 and is taken modulo
/// 2^16 (the `as u16` conversion); the hooks URL is on localhost at that port.
pub open spec fn openclaw_from(s: OpenClawSettingsView) -> Option<OpenClawView> {
    if s.hooks_enabled != Some(true) {
        None
    } else {
        match s.hooks_token {
            None => None,
            Some(token) => {
                let port = (match s.gateway_port {
                    Some(p) => p % 65536,
                    None => 18789,
                }) as u16;
                Some(OpenClawView { hooks_url: local_url(port, "/hooks/agent"@), hooks_token: token, port })
            },
        }
    }
}

pub open spec fn opt_openclaw_view(o: Option<OpenClawProvider>) -> Option<OpenClawView> {
    match o {
        Some(p) => Some(p@),
        None => None,
    }
}

/// The text an OpenClaw agent is woken with.
pub open spec fn wake_text(from: Seq<char>, content: Seq<char>) -> Seq<char> {
    "SignalDock message from @"@ + from + ":\n\n"@ + content
}

/// How an HTTP exchange with the OpenClaw hooks endpoint turns into a result.
pub open spec fn openclaw_result(o: HttpOutcome) -> DeliveryView {
    match o {
        HttpOutcome::Status { code, text } => if is_success(code) {
            DeliveryView::Delivered
        } else if is_server_error(code) {
            DeliveryView::Retry("OpenClaw "@ + text@ + " — server error"@)
        } else {
            DeliveryView::Failed("OpenClaw "@ + text@ + " — check hooks config"@)
        },
        HttpOutcome::Transport { transient, text } => if transient {
            DeliveryView::Retry("OpenClaw connection error: "@ + text@)
        } else {
            DeliveryView::Failed("OpenClaw error: "@ + text@)
        },
    }
}

fn prefixed(prefix: &str, text: &String, suffix: &str) -> (r: String)
    ensures
        r@ == prefix@ + text@ + suffix@,
{
    let mut r = prefix.to_owned();
    r.append(text.as_str());
    r.append(suffix);
    r
}

fn prefixed_text(prefix: &str, text: &String) -> (r: String)
    ensures
        r@ == prefix@ + text@,
{
    let mut r = prefix.to_owned();
    r.append(text.as_str());
    r
}

impl OpenClawProvider {
    pub fn new(hooks_url: String, hooks_token: String, port: u16) -> (p: Self)
        ensures
            p@ == (OpenClawView { hooks_url: hooks_url@, hooks_token: hooks_token@, port }),
    {
        Self { hooks_url, hooks_token, port }
    }

    /// The gateway on its default port, with no token.
    pub fn new_default() -> (p: Self)
        ensures
            p@.hooks_url == "http://127.0.0.1:18789/hooks/agent"@,
            p@.hooks_token == Seq::<char>::empty(),
            p@.port == 18789,
    {
        Self {
            hooks_url: "http://127.0.0.1:18789/hooks/agent".to_owned(),
            hooks_token: String::new(),
            port: 18789,
        }
    }

    /// The provider that OpenClaw settings describe, if any.
    pub fn from_settings(s: &OpenClawSettings) -> (p: Option<Self>)
        ensures
            opt_openclaw_view(p) == openclaw_from(s@),
    {
        match s.hooks_enabled {
            Some(true) => {},
            _ => return None,
        }
        let port: u16 = match s.gateway_port {
            Some(p) => (p % 65536) as u16,
            None => 18789,
        };
        let token = match &s.hooks_token {
            Some(t) => t.clone(),
            None => return None,
        };
        let hooks_url = local_url_for(port, "/hooks/agent");
        Some(Self { hooks_url, hooks_token: token, port })
    }

    /// The provider configured by the text of `~/.openclaw/openclaw.json`
    /// (`None` when the file could not be read).
    pub fn detect_from(config_text: Option<String>) -> (p: Option<Self>)
        ensures
            opt_openclaw_view(p) == (match opt_text(config_text) {
                Some(t) => match openclaw_settings(t) {
                    Some(s) => openclaw_from(s),
                    None => None,
                },
                None => None,
            }),
    {
        match config_text {
            Some(t) => match decode_openclaw_settings(t.as_str()) {
                Some(s) => Self::from_settings(&s),
                None => None,
            },
            None => None,
        }
    }

    /// The endpoint messages are posted to.
    pub fn hooks_url(&self) -> (u: &String)
        ensures
            u@ == self@.hooks_url,
    {
        &self.hooks_url
    }

    /// The gateway port.
    pub fn port(&self) -> (p: u16)
        ensures
            p == self@.port,
    {
        self.port
    }

    /// The `Authorization` header for the hooks endpoint.
    pub fn auth_header(&self) -> (h: String)
        ensures
            h@ == "Bearer "@ + self@.hooks_token,
    {
        crate::api::bearer(&self.hooks_token)
    }

    /// The gateway's health endpoint.
    pub fn health_url(&self) -> (u: String)
        ensures
            u@ == local_url(self@.port, "/health"@),
    {
        local_url_for(self.port, "/health")
    }

    /// The text the agent is woken with for `msg`.
    pub fn wake_message(msg: &Message) -> (t: String)
        ensures
            t@ == wake_text(msg.from@, msg.content@),
    {
        let mut t = "SignalDock message from @".to_owned();
        t.append(msg.from.as_str());
        t.append(":\n\n");
        t.append(msg.content.as_str());
        t
    }

    /// The JSON body posted to the hooks endpoint for `msg`.
    pub fn hook_body(msg: &Message) -> (t: String)
        ensures
            t@ == json_object_text(openclaw_members(msg@)),
    {
        object_text(&openclaw_fields(msg))
    }

    /// The result of posting to the hooks endpoint.
    pub fn classify(o: &HttpOutcome) -> (r: DeliveryResult)
        ensures
            r@ == openclaw_result(*o),
    {
        match o {
            HttpOutcome::Status { code, text } => {
                if 200 <= *code && *code < 300 {
                    DeliveryResult::Delivered
                } else if 500 <= *code && *code < 600 {
                    DeliveryResult::Retry(prefixed("OpenClaw ", text, " — server error"))
                } else {
                    DeliveryResult::Failed(prefixed("OpenClaw ", text, " — check hooks config"))
                }
            },
            HttpOutcome::Transport { transient, text } => {
                if *transient {
                    DeliveryResult::Retry(prefixed_text("OpenClaw connection error: ", text))
                } else {
                    DeliveryResult::Failed(prefixed_text("OpenClaw error: ", text))
                }
            },
        }
    }

    /// The gateway is healthy when its health endpoint answers with a 2xx status.
    pub fn healthy_from(o: &HttpOutcome) -> (b: bool)
        ensures
            b == (match *o {
                HttpOutcome::Status { code, .. } => is_success(code),
                HttpOutcome::Transport { .. } => false,
            }),
    {
        match o {
            HttpOutcome::Status { code, .. } => 200 <= *code && *code < 300,
            HttpOutcome::Transport { .. } => false,
        }
    }

    pub fn info(&self) -> (i: ProviderInfo)
        ensures
            i.name@ == "openclaw"@,
            i.display_name@ == "OpenClaw"@,
            i.version@ == "2026.x"@,
            i.config_paths@.len() == 1,
            i.config_paths@[0]@ == "~/.openclaw/openclaw.json"@,
            i.docs_url@ == "https://docs.openclaw.ai"@,
    {
        let mut paths: Vec<&'static str> = Vec::new();
        paths.push("~/.openclaw/openclaw.json");
        ProviderInfo {
            name: "openclaw",
            display_name: "OpenClaw",
            version: "2026.x",
            config_paths: paths,
            docs_url: "https://docs.openclaw.ai",
        }
    }
}

/// The provider a configuration selects.
pub enum SelectedProvider {
    OpenClaw(OpenClawProvider),
    Webhook(WebhookProvider),
    File(FileProvider),
    Stdout(StdoutProvider),
}

/// Model of a [`SelectedProvider`].
pub enum SelectedView {
    OpenClaw(OpenClawView),
    Webhook(Seq<char>),
    File(Seq<char>),
    Stdout,
}

impl View for SelectedProvider {
    type V = SelectedView;

    open spec fn view(&self) -> SelectedView {
        match self {
            SelectedProvider::OpenClaw(p) => SelectedView::OpenClaw(p@),
            SelectedProvider::Webhook(p) => SelectedView::Webhook(p@),
            SelectedProvider::File(p) => SelectedView::File(p@),
            SelectedProvider::Stdout(_) => SelectedView::Stdout,
        }
    }
}

/// The default OpenClaw provider's model.
pub open spec fn default_openclaw() -> OpenClawView {
    OpenClawView {
        hooks_url: "http://127.0.0.1:18789/hooks/agent"@,
        hooks_token: Seq::empty(),
        port: 18789,
    }
}

/// Which provider the platform name `platform` selects:
/// `openclaw` uses the detected gateway, or the default one; the
/// platforms this runtime has no provider for (`codex`, `gemini`,
/// `copilot`, `opencode`) are reported as not installed;
/// `webhook` needs a webhook URL; `file` writes to the configured
/// directory, or to `default_dir`; any other name prints to standard output.
pub open spec fn selection(
    platform: Seq<char>,
    webhook_url: Option<Seq<char>>,
    file_dir: Option<Seq<char>>,
    detected_openclaw: Option<OpenClawView>,
    default_dir: Seq<char>,
) -> Result<SelectedView, Seq<char>> {
    if platform == "openclaw"@ {
        Ok(SelectedView::OpenClaw(match detected_openclaw {
            Some(p) => p,
            None => default_openclaw(),
        }))
    } else if platform == "codex"@ {
        Err("Codex CLI not found — is it installed?"@)
    } else if platform == "gemini"@ {
        Err("Gemini CLI not found — is it installed?"@)
    } else if platform == "copilot"@ {
        Err("Copilot not found — is it installed?"@)
    } else if platform == "opencode"@ {
        Err("OpenCode not found — is it installed?"@)
    } else if platform == "webhook"@ {
        match webhook_url {
            Some(u) => Ok(SelectedView::Webhook(u)),
            None => Err("--webhook URL required"@),
        }
    } else if platform == "file"@ {
        Ok(SelectedView::File(text_or(file_dir, default_dir)))
    } else {
        Ok(SelectedView::Stdout)
    }
}

pub open spec fn selection_view(r: Result<SelectedProvider, String>) -> Result<SelectedView, Seq<char>> {
    match r {
        Ok(p) => Ok(p@),
        Err(e) => Err(e@),
    }
}

/// Builds the provider that `config` selects; `detected_openclaw` is the
/// OpenClaw gateway found on this machine, `default_dir` the directory the
/// file provider writes to when none is configured.
pub fn create_provider(config: &Config, detected_openclaw: Option<OpenClawProvider>, default_dir: String) -> (r: Result<SelectedProvider, String>)
    ensures
        selection_view(r) == selection(
            config.platform@,
            opt_text(config.webhook_url),
            opt_text(config.file_output_dir),
            opt_openclaw_view(detected_openclaw),
            default_dir@,
        ),
{
    let p = &config.platform;
    if *p == "openclaw".to_owned() {
        let provider = match detected_openclaw {
            Some(d) => d,
            None => OpenClawProvider::new_default(),
        };
        Ok(SelectedProvider::OpenClaw(provider))
    } else if *p == "codex".to_owned() {
        Err("Codex CLI not found — is it installed?".to_owned())
    } else if *p == "gemini".to_owned() {
        Err("Gemini CLI not found — is it installed?".to_owned())
    } else if *p == "copilot".to_owned() {
        Err("Copilot not found — is it installed?".to_owned())
    } else if *p == "opencode".to_owned() {
        Err("OpenCode not found — is it installed?".to_owned())
    } else if *p == "webhook".to_owned() {
        match &config.webhook_url {
            Some(u) => Ok(SelectedProvider::Webhook(WebhookProvider::new(u.clone()))),
            None => Err("--webhook URL required".to_owned()),
        }
    } else if *p == "file".to_owned() {
        let dir = match &config.file_output_dir {
            Some(d) => d.clone(),
            None => default_dir,
        };
        Ok(SelectedProvider::File(FileProvider::new(dir)))
    } else {
        Ok(SelectedProvider::Stdout(StdoutProvider))
    }
}

/// Which agent platforms were found installed on this machine.
pub struct Detection {
    pub openclaw: bool,
    pub codex: bool,
    pub gemini: bool,
    pub copilot: bool,
    pub opencode: bool,
}

/// The first platform found, in the order OpenClaw, Codex, Gemini,
/// Copilot, OpenCode; `stdout` when none is.
pub open spec fn detected_platform(d: Detection) -> Seq<char> {
    if d.openclaw {
        "openclaw"@
    } else if d.codex {
        "codex"@
    } else if d.gemini {
        "gemini"@
    } else if d.copilot {
        "copilot"@
    } else if d.opencode {
        "opencode"@
    } else {
        "stdout"@
    }
}

/// The platform name to configure for what was found on this machine.
pub fn detect_provider(d: &Detection) -> (name: String)
    ensures
        name@ == detected_platform(*d),
{
    if d.openclaw {
        "openclaw".to_owned()
    } else if d.codex {
        "codex".to_owned()
    } else if d.gemini {
        "gemini".to_owned()
    } else if d.copilot {
        "copilot".to_owned()
    } else if d.opencode {
        "opencode".to_owned()
    } else {
        "stdout".to_owned()
    }
}

} // verus!
