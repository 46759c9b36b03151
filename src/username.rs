//! The user name segment: whether it is shown, and how it is rendered.

use crate::config::UsernameConfig;
use crate::context::{login_user, ssh_session, env_text, username_var, Context, EnvEntry, Platform};
use crate::gradient::{built_curve, gradient_colors, Curve, Rgb};
use crate::graphemes::string_views;
use crate::recolor::{gradientify_all, recolored_stream};
use crate::segment::{segment_views, Segment};
use vstd::prelude::*;

verus! {

/// How many samples the gradient of the user name segment is cut into.
pub const TOTAL_SAMPLES: usize = 144;

/// What the template formatter is asked to render: the template, the style that `$style`
/// stands for, and the user name that `$user` stands for.
pub struct FormatRequest {
    pub format: String,
    pub style: String,
    pub user: String,
}

impl View for FormatRequest {
    type V = (Seq<char>, Seq<char>, Seq<char>);

    open spec fn view(&self) -> (Seq<char>, Seq<char>, Seq<char>) {
        (self.format@, self.style@, self.user@)
    }
}

/// Why the template formatter could not render a template.
#[derive(Clone, Debug)]
pub struct FormatError {
    pub message: String,
}

/// Relies on nix::unistd::geteuid, read through `Uid::as_raw`: the effective user id of
/// this process. It depends on the process, so nothing is stated of it.
#[verifier::external_body]
fn effective_uid() -> u32 {
    nix::unistd::geteuid().as_raw()
}

/// Whether `uid` is the id of the superuser.
pub fn is_root_uid(uid: u32) -> (r: bool)
    ensures
        r == (uid == 0),
{
    uid == 0
}

/// Whether this process runs as the superuser.
pub fn is_root_user() -> bool {
    is_root_uid(effective_uid())
}

/// Whether `username` is the logged-in user: `LOGNAME` is not set, or names the same user.
pub fn is_login_user(context: &Context, username: &str) -> (r: bool)
    ensures
        r == login_user(context@.0, username@),
{
    match context.get_env("LOGNAME") {
        None => true,
        Some(logname) => logname == username.to_owned(),
    }
}

/// Whether the prompt runs in an SSH session: one of `SSH_CONNECTION`, `SSH_CLIENT` and
/// `SSH_TTY` is set and not empty.
pub fn is_ssh_session(context: &Context) -> (r: bool)
    ensures
        r == ssh_session(context@.0),
{
    context.has_non_empty_env("SSH_CONNECTION") || context.has_non_empty_env("SSH_CLIENT")
        || context.has_non_empty_env("SSH_TTY")
}

/// The user name is shown when the configuration asks for it always, the user is an
/// administrator, the user is not the logged-in one, or the session is remote.
pub open spec fn shows_username(
    vars: Seq<EnvEntry>,
    username: Seq<char>,
    show_always: bool,
    is_root: bool,
) -> bool {
    show_always || is_root || !login_user(vars, username) || ssh_session(vars)
}

/// The name shown for the user: the user variable of the platform, read as `Administrator`
/// for an elevated account on Windows; `None` where the variable is not set.
pub open spec fn display_name(ctx: (Seq<EnvEntry>, Platform), is_root: bool) -> Option<Seq<char>> {
    match env_text(ctx.0, username_var(ctx.1)) {
        None => None,
        Some(u) => Some(
            if ctx.1 == Platform::Windows && is_root {
                "Administrator"@
            } else {
                u
            },
        ),
    }
}

/// What the formatter is asked to render for the user name segment, or `None` where the
/// segment is not shown.
pub open spec fn request_for(
    ctx: (Seq<EnvEntry>, Platform),
    format: Seq<char>,
    style_root: Seq<char>,
    style_user: Seq<char>,
    show_always: bool,
    is_root: bool,
) -> Option<(Seq<char>, Seq<char>, Seq<char>)> {
    match display_name(ctx, is_root) {
        None => None,
        Some(u) => if shows_username(ctx.0, u, show_always, is_root) {
            Some((format, if is_root { style_root } else { style_user }, u))
        } else {
            None
        },
    }
}

/// `request_for` on a configuration.
pub open spec fn request_spec(ctx: (Seq<EnvEntry>, Platform), config: UsernameConfig, is_root: bool) -> Option<
    (Seq<char>, Seq<char>, Seq<char>),
> {
    request_for(
        ctx,
        config.format@,
        config.style_root@,
        config.style_user@,
        config.show_always,
        is_root,
    )
}

/// The user name (after the administrator override) if the segment is shown, with the
/// template and style to render it with.
pub fn format_request(context: &Context, config: &UsernameConfig, is_root: bool) -> (r: Option<
    FormatRequest,
>)
    ensures
        match r {
            Some(q) => request_spec(context@, *config, is_root) == Some(q@),
            None => request_spec(context@, *config, is_root) is None,
        },
{
    let platform = context.platform();
    let var = match platform {
        Platform::Unix => "USER",
        Platform::Windows => "USERNAME",
    };
    let mut username = match context.get_env(var) {
        Some(u) => u,
        None => return None,
    };
    if platform == Platform::Windows && is_root {
        username = "Administrator".to_owned();
    }
    let show = config.show_always || is_root || !is_login_user(context, username.as_str())
        || is_ssh_session(context);
    if !show {
        return None;
    }
    let style = if is_root {
        config.style_root
    } else {
        config.style_user
    };
    Some(FormatRequest { format: config.format.to_owned(), style: style.to_owned(), user: username })
}

/// The color stops of the user name gradient.
pub open spec fn sunset_stops() -> Seq<Seq<char>> {
    seq!["#C7D2FE"@, "#FECACA"@, "#FEF9C3"@]
}

/// The breakpoints of the user name gradient.
pub open spec fn sunset_domain() -> Seq<u32> {
    seq![0u32, 50u32, 100u32]
}

/// The colors the user name segment is drawn with.
pub open spec fn sunset_colors() -> Seq<Rgb> {
    gradient_colors(built_curve(sunset_stops(), sunset_domain()), TOTAL_SAMPLES as nat)
}

/// The curve of the user name segment.
pub fn sunset_curve() -> (r: Curve)
    ensures
        r@ == built_curve(sunset_stops(), sunset_domain()),
{
    let stops: Vec<String> = vec!["#C7D2FE".to_owned(), "#FECACA".to_owned(), "#FEF9C3".to_owned()];
    let domain: Vec<u32> = vec![0u32, 50u32, 100u32];
    assert(string_views(stops@) =~= sunset_stops());
    assert(domain@ =~= sunset_domain());
    Curve::build(&stops, &domain)
}

/// What the segment is, given what the formatter returned: nothing where it failed, else
/// its segments recolored as one run.
pub open spec fn rendered(p: Result<Vec<Segment>, FormatError>, r: Option<Vec<Segment>>) -> bool {
    match p {
        Err(_) => r is None,
        Ok(segs) => match r {
            Some(out) => segment_views(out@) == recolored_stream(segment_views(segs@), sunset_colors()),
            None => false,
        },
    }
}

/// Renders the user name segment: decides whether it is shown, has `formatter` render
/// the template with the user name and style, and recolors what comes back with the
/// gradient. `None` where the segment is not shown or the template cannot be rendered.
pub fn module<F>(context: &Context, config: &UsernameConfig, is_root: bool, formatter: F) -> (r: Option<Vec<Segment>>)
    where
        F: Fn(FormatRequest) -> Result<Vec<Segment>, FormatError>,
    requires
        forall|q: FormatRequest| formatter.requires((q,)),
    ensures
        request_spec(context@, *config, is_root) is None ==> r is None,
        request_spec(context@, *config, is_root) is Some ==> exists|
            q: FormatRequest,
            p: Result<Vec<Segment>, FormatError>,
        |
            q@ == request_spec(context@, *config, is_root)->Some_0 && #[trigger] formatter.ensures((q,), p)
                && rendered(p, r),
{
    let request = match format_request(context, config, is_root) {
        Some(q) => q,
        None => return None,
    };
    let parsed = formatter(request);
    match parsed {
        Err(_) => {
            assert(rendered(parsed, None));
            None
        },
        Ok(segments) => {
            let curve = sunset_curve();
            let out = gradientify_all(&segments, &curve, TOTAL_SAMPLES);
            let r = Some(out);
            assert(rendered(parsed, r));
            r
        },
    }
}

} // verus!
