use chatstronomy::rig_resolver::{CommandContext, RigEntry, RigResolver, StaticRigResolver};
use chatstronomy::source::{RigCapabilities, SharedRigSource};
use std::collections::{HashMap, HashSet};

fn source(id: u64, commands: bool) -> SharedRigSource {
    SharedRigSource {
        id,
        capabilities: RigCapabilities { commands, ..RigCapabilities::none() },
    }
}

fn resolver() -> StaticRigResolver {
    StaticRigResolver {
        rig_sources: vec![RigEntry { name: "c925".to_string(), source: source(1, true) }],
        channel_to_telescope: HashMap::from([(42, "c925".to_string())]),
        write_acl: HashSet::from([7]),
    }
}

fn invocation(channel_id: u64, user_id: u64) -> CommandContext {
    CommandContext {
        guild_id: Some(1),
        channel_id,
        user_id,
        role_ids: Vec::new(),
        manages_guild: false,
    }
}

#[test]
fn resolves_by_name_and_channel() {
    let r = resolver();
    assert_eq!(r.resolve(&invocation(42, 7), None).unwrap().0, "c925");
    assert_eq!(r.resolve(&invocation(42, 7), Some("c925")).unwrap().0, "c925");
    assert_eq!(r.resolve(&invocation(42, 7), Some("c925")).unwrap().1, source(1, true));
}

#[test]
fn unknown_name_and_unmapped_channel_error() {
    let r = resolver();
    assert!(r
        .resolve(&invocation(42, 7), Some("nope"))
        .err()
        .unwrap()
        .contains("not routed"));
    assert!(r
        .resolve(&invocation(0, 7), None)
        .err()
        .unwrap()
        .contains("No telescope mapped"));
}

#[test]
fn known_telescopes_are_listed_in_order() {
    let mut r = resolver();
    r.insert_rig("a \"quoted\" one".to_string(), source(2, true));
    r.insert_rig("b2".to_string(), source(3, true));
    assert_eq!(
        r.resolve(&invocation(0, 7), None).err().unwrap(),
        "No telescope mapped to this channel. Pass `telescope:<name>`. Known: [\"a \\\"quoted\\\" one\", \"b2\", \"c925\"]"
    );
    assert_eq!(r.known_names(), vec!["a \"quoted\" one", "b2", "c925"]);
    r.insert_rig("b2".to_string(), source(4, false));
    assert_eq!(r.known_names(), vec!["a \"quoted\" one", "b2", "c925"]);
}

#[test]
fn write_acl_gates_by_user_id() {
    let r = resolver();
    assert!(r.write_allowed(&invocation(42, 7), "c925").is_ok());
    assert!(r.write_allowed(&invocation(42, 8), "c925").is_err());
    assert_eq!(
        r.write_allowed(&invocation(42, 8), "c925").unwrap_err(),
        "You are not authorized to run write commands. Your user ID `8` is not in `chat.discord_bot.write_acl`."
    );
}

#[test]
fn empty_allowlist_grants_only_discord_server_managers() {
    let mut resolver = resolver();
    resolver.write_acl.clear();
    let manager = CommandContext { manages_guild: true, ..invocation(42, 8) };

    assert!(resolver.write_allowed(&manager, "c925").is_ok());
    assert!(resolver.resolve_for_write(&manager, None).is_ok());

    let error = resolver
        .write_allowed(&invocation(42, 8), "c925")
        .expect_err("ordinary guild members must not gain hardware control");
    assert!(error.contains("server managers"), "got: {error}");
}

#[test]
fn local_commands_never_run_from_direct_messages() {
    let mut resolver = resolver();
    resolver.write_acl.clear();
    let direct_message = CommandContext {
        guild_id: None,
        manages_guild: true,
        ..invocation(42, 7)
    };

    let error = resolver
        .write_allowed(&direct_message, "c925")
        .expect_err("a Discord guild is required even for an apparent manager");
    assert!(error.contains("not direct messages"), "got: {error}");
}

#[test]
fn explicit_allowlist_does_not_implicitly_grant_guild_managers() {
    let resolver = resolver();
    let manager = CommandContext { manages_guild: true, ..invocation(42, 8) };

    assert!(resolver.write_allowed(&invocation(42, 7), "c925").is_ok());
    let error = resolver
        .write_allowed(&manager, "c925")
        .expect_err("an explicit allowlist is authoritative");
    assert!(error.contains("write_acl"), "got: {error}");
}

#[test]
fn local_plugin_control_lock_overrides_every_discord_permission() {
    let mut resolver = resolver();
    resolver.insert_rig("c925".to_string(), source(1, false));

    assert!(resolver.resolve(&invocation(42, 7), None).is_ok());

    let error = resolver
        .write_allowed(&invocation(42, 7), "c925")
        .expect_err("even an explicitly allowlisted user needs local consent");
    assert!(error.contains("disabled in N.I.N.A."), "got: {error}");

    resolver.write_acl.clear();
    let manager = CommandContext { manages_guild: true, ..invocation(42, 7) };
    assert!(resolver.resolve_for_write(&manager, None).is_err());
}

#[test]
fn another_servers_manager_cannot_name_or_control_a_local_telescope() {
    let mut resolver = resolver();
    resolver.write_acl.clear();
    let foreign_manager = CommandContext {
        guild_id: Some(999),
        manages_guild: true,
        ..invocation(999, 8)
    };

    let error = resolver
        .resolve(&foreign_manager, Some("c925"))
        .err()
        .expect("explicit telescope names must not bypass channel routing");
    assert!(error.contains("No telescope is routed"), "got: {error}");
    let error = resolver
        .write_allowed(&foreign_manager, "c925")
        .expect_err("a manager in another server has no hardware authority");
    assert!(error.contains("No telescope is routed"), "got: {error}");
}

#[test]
fn telescope_names_cannot_cross_mapped_discord_channels() {
    let mut resolver = resolver();
    resolver.write_acl.clear();
    resolver.insert_rig("esprit100".to_string(), source(2, true));
    resolver.channel_to_telescope.insert(43, "esprit100".to_string());
    let manager = CommandContext { manages_guild: true, ..invocation(42, 8) };

    let error = resolver
        .resolve(&manager, Some("esprit100"))
        .err()
        .expect("an explicit read cannot cross telescope channel routes");
    assert!(error.contains("not routed"), "got: {error}");
    let error = resolver
        .write_allowed(&manager, "esprit100")
        .expect_err("a manager cannot control another channel's telescope");
    assert!(error.contains("not routed"), "got: {error}");
}
