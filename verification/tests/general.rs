use discordbot::general::{
    am_i_admin_reply, arguments_reply, bird_reply, dispatch_error_reply, repeat_options,
    slow_mode_current_reply, slow_mode_request, slow_mode_set_reply, unknown_command_reply,
};
use discordbot::reply::Reply;

#[test]
fn admin_role_is_found_among_roles() {
    assert_eq!(am_i_admin_reply(None), Reply::YouAreNotAdmin);
    assert_eq!(am_i_admin_reply(Some(vec![])), Reply::YouAreNotAdmin);
    assert_eq!(am_i_admin_reply(Some(vec![None, Some(0x10)])), Reply::YouAreNotAdmin);
    assert_eq!(am_i_admin_reply(Some(vec![None, Some(0x18)])), Reply::YouAreAdmin);
    assert_eq!(am_i_admin_reply(Some(vec![Some(8)])), Reply::YouAreAdmin);
    assert_eq!(am_i_admin_reply(Some(vec![Some(u64::MAX)])), Reply::YouAreAdmin);
}

#[test]
fn repeat_cleaning_in_guild_and_direct_message() {
    let guild = repeat_options(Some(77));
    assert!(guild.clean_role && guild.clean_user && !guild.clean_channel);
    assert_eq!(guild.guild_reference, Some(77));
    let direct = repeat_options(None);
    assert!(direct.clean_role && direct.clean_user && !direct.clean_channel);
    assert!(direct.clean_here && direct.clean_everyone && direct.show_discriminator);
    assert_eq!(direct.guild_reference, None);
}

#[test]
fn bird_answers() {
    assert_eq!(bird_reply(true, ""), Reply::BirdHelp);
    assert_eq!(bird_reply(false, "owl"), Reply::BirdUnknown("owl".to_string()));
}

#[test]
fn command_hook_answers() {
    assert_eq!(arguments_reply("x y"), Reply::Arguments("x y".to_string()));
    assert_eq!(unknown_command_reply("nope"), Reply::UnknownCommand("nope".to_string()));
    assert_eq!(dispatch_error_reply(None), None);
    assert_eq!(dispatch_error_reply(Some((false, 3))), None);
    assert_eq!(dispatch_error_reply(Some((true, 3))), Some(Reply::TryAgainIn(3)));
}

#[test]
fn slow_mode_answers() {
    assert_eq!(slow_mode_request(None), None);
    assert_eq!(slow_mode_request(Some("15")), Some(15));
    assert_eq!(slow_mode_request(Some("+15")), Some(15));
    assert_eq!(slow_mode_request(Some("fast")), None);
    assert_eq!(slow_mode_set_reply(15, true), Reply::SlowModeSet(15));
    assert_eq!(slow_mode_set_reply(15, false), Reply::SlowModeSetFailed(15));
    assert_eq!(slow_mode_current_reply(Some(Some(9))), Reply::SlowModeCurrent(9));
    assert_eq!(slow_mode_current_reply(Some(None)), Reply::SlowModeCurrent(0));
    assert_eq!(slow_mode_current_reply(None), Reply::ChannelNotCached);
}
