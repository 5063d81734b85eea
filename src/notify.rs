//! Desktop notifications through the `notify-send` command.

use crate::metadata::APP_ID;
use crate::text::texts_view;
use vstd::prelude::*;

verus! {

/// The program that shows a desktop notification.
pub const NOTIFY_PROGRAM: &'static str = "notify-send";

/// The arguments of `notify-send` for one notification: its title and body,
/// the application's name, and a hint that the notification is transient.
pub fn notification_args(title: &str, body: &str) -> (r: Vec<String>)
    ensures
        texts_view(r@) == seq![
            title@,
            body@,
            "--app-name"@,
            APP_ID@,
            "--hint=int:transient:1"@,
        ],
{
    let mut args: Vec<String> = Vec::new();
    args.push(title.to_owned());
    args.push(body.to_owned());
    args.push("--app-name".to_owned());
    args.push(APP_ID.to_owned());
    args.push("--hint=int:transient:1".to_owned());
    assert(texts_view(args@) =~= seq![
        title@,
        body@,
        "--app-name"@,
        APP_ID@,
        "--hint=int:transient:1"@,
    ]);
    args
}

} // verus!
