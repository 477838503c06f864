//! Desktop notifications: their settings and the command line that shows one.

use vstd::prelude::*;
use vstd::string::*;

verus! {

/// Program that shows a desktop notification.
pub const NOTIFY_PROGRAM: &'static str = "notify-send";

/// What a desktop notification shows: the sending application's name,
/// a summary line and a body text.
pub struct NotiyConfig {
    pub app_name: String,
    pub summary: String,
    pub body: String,
}

impl Default for NotiyConfig {
    /// The application name "Spark" with placeholder summary and body.
    fn default() -> (config: Self)
        ensures
            config.app_name@ == "Spark"@,
            config.summary@ == "%Default Summary%"@,
            config.body@ == "%Default Body Text%"@,
    {
        Self {
            app_name: String::from_str("Spark"),
            summary: String::from_str("%Default Summary%"),
            body: String::from_str("%Default Body Text%"),
        }
    }
}

/// The arguments given to the notification program for a notification
/// with the given name, summary and body: the name as an `--app-name=`
/// option, then the summary, then the body.
pub open spec fn notify_args_of(app_name: Seq<char>, summary: Seq<char>, body: Seq<char>) -> Seq<Seq<char>> {
    seq!["--app-name="@ + app_name, summary, body]
}

/// The arguments with which the notification program is run to show `nc`.
pub fn notify_args(nc: NotiyConfig) -> (args: Vec<String>)
    ensures
        args@.map_values(|a: String| a@) == notify_args_of(nc.app_name@, nc.summary@, nc.body@),
{
    let app_arg = String::from_str("--app-name=").concat(nc.app_name.as_str());
    let mut args: Vec<String> = Vec::new();
    args.push(app_arg);
    args.push(nc.summary);
    args.push(nc.body);
    assert(args@.map_values(|a: String| a@) =~= notify_args_of(nc.app_name@, nc.summary@, nc.body@));
    args
}

/// The notification program gets three arguments: the option
/// `--app-name=` followed by the whole application name, then the whole
/// summary, then the whole body, none of them shortened or altered.
pub proof fn notify_args_pass_texts_whole(app_name: Seq<char>, summary: Seq<char>, body: Seq<char>)
    ensures
        notify_args_of(app_name, summary, body).len() == 3,
        notify_args_of(app_name, summary, body)[0].len() == 11 + app_name.len(),
        notify_args_of(app_name, summary, body)[0].take(11) == "--app-name="@,
        notify_args_of(app_name, summary, body)[0].skip(11) == app_name,
        notify_args_of(app_name, summary, body)[1] == summary,
        notify_args_of(app_name, summary, body)[2] == body,
{
    reveal_strlit("--app-name=");
    let a = notify_args_of(app_name, summary, body)[0];
    assert(a.take(11) =~= "--app-name="@);
    assert(a.skip(11) =~= app_name);
}

} // verus!
