//! Which telescope a command means, and who may run commands that change something.

use std::collections::{HashMap, HashSet};
use vstd::prelude::*;
use crate::calendar::opt_text;
use crate::source::SharedRigSource;
use crate::text::{
    ascending, cat2, cat3, dec, decimal, in_order, join, joined, names_in_order_ascend, place,
    quoted, quoted_text, same, views,
};

verus! {

broadcast use vstd::std_specs::hash::group_hash_axioms;

/// The circumstances of a command.
#[derive(Clone, Debug)]
pub struct CommandContext {
    pub guild_id: Option<u64>,
    pub channel_id: u64,
    pub user_id: u64,
    pub role_ids: Vec<u64>,
    /// The user manages this server right now.
    pub manages_guild: bool,
}

/// What a resolution says.
pub open spec fn resolution_view(r: Result<(String, SharedRigSource), String>) -> Result<
    (Seq<char>, SharedRigSource),
    Seq<char>,
> {
    match r {
        Ok(p) => Ok((p.0@, p.1)),
        Err(e) => Err(e@),
    }
}

/// What a permission says.
pub open spec fn permission_view(r: Result<(), String>) -> Result<(), Seq<char>> {
    match r {
        Ok(_) => Ok(()),
        Err(e) => Err(e@),
    }
}

/// Finds the telescope that a command means and decides who may run it. Errors are texts for the
/// user.
pub trait RigResolver: Send + Sync {
    /// The resolver's data are consistent.
    spec fn ready(&self) -> bool;

    spec fn resolution(
        &self,
        invocation: CommandContext,
        override_name: Option<Seq<char>>,
    ) -> Result<(Seq<char>, SharedRigSource), Seq<char>>;

    spec fn permission(&self, invocation: CommandContext, telescope: Seq<char>) -> Result<
        (),
        Seq<char>,
    >;

    /// The telescope named, or else the one that the channel belongs to.
    fn resolve(&self, invocation: &CommandContext, override_name: Option<&str>) -> (r: Result<
        (String, SharedRigSource),
        String,
    >)
        requires
            override_name is None ==> self.ready(),
        ensures
            resolution_view(r) == self.resolution(*invocation, opt_text(override_name)),
    ;

    /// Whether the user may run write commands on the telescope.
    fn write_allowed(&self, invocation: &CommandContext, telescope: &str) -> (r: Result<
        (),
        String,
    >)
        ensures
            permission_view(r) == self.permission(*invocation, telescope@),
    ;

    /// Resolves a telescope and asks for permission on the very telescope that was found.
    fn resolve_for_write(&self, invocation: &CommandContext, override_name: Option<&str>) -> (r:
        Result<(String, SharedRigSource), String>)
        requires
            override_name is None ==> self.ready(),
        ensures
            resolution_view(r) == (match self.resolution(*invocation, opt_text(override_name)) {
                Err(e) => Err(e),
                Ok(found) => match self.permission(*invocation, found.0) {
                    Err(e) => Err(e),
                    Ok(_) => Ok(found),
                },
            }),
    {
        match self.resolve(invocation, override_name) {
            Err(e) => Err(e),
            Ok(found) => match self.write_allowed(invocation, found.0.as_str()) {
                Err(e) => Err(e),
                Ok(_) => Ok(found),
            },
        }
    }
}

/// A telescope by name.
#[derive(Debug)]
pub struct RigEntry {
    pub name: String,
    pub source: SharedRigSource,
}

/// The connection of the telescope with the given name.
pub open spec fn source_named(entries: Seq<RigEntry>, name: Seq<char>) -> Option<SharedRigSource>
    decreases entries.len(),
{
    if entries.len() == 0 {
        None
    } else if entries[0].name@ == name {
        Some(entries[0].source)
    } else {
        source_named(entries.subrange(1, entries.len() as int), name)
    }
}

/// The names of the telescopes, in the order of the list.
pub open spec fn entry_names(entries: Seq<RigEntry>) -> Seq<Seq<char>> {
    entries.map_values(|e: RigEntry| e.name@)
}

/// A list of names as it is printed for debugging.
pub open spec fn listing(names: Seq<Seq<char>>) -> Seq<char> {
    "["@ + joined(names.map_values(|n: Seq<char>| quoted_text(n)), ", "@) + "]"@
}

/// Telescopes, channels and write permissions as configured.
pub struct StaticRigResolver {
    /// The telescopes; their names are distinct.
    pub rig_sources: Vec<RigEntry>,
    /// The telescope that each Discord channel belongs to.
    pub channel_to_telescope: HashMap<u64, String>,
    /// Users that may run write commands; where empty, managers of the server may.
    pub write_acl: HashSet<u64>,
}

impl StaticRigResolver {
    /// No two telescopes have the same name.
    pub open spec fn wf(&self) -> bool {
        entry_names(self.rig_sources@).no_duplicates()
    }

    /// The name of the telescope that a channel belongs to.
    pub open spec fn routed(&self, channel: u64) -> Option<Seq<char>> {
        if self.channel_to_telescope@.contains_key(channel) {
            Some(self.channel_to_telescope@[channel]@)
        } else {
            None
        }
    }

    pub open spec fn known_listing(&self) -> Seq<char> {
        listing(in_order(entry_names(self.rig_sources@)))
    }

    /// The telescope must be the one that the command's channel belongs to.
    pub open spec fn route(&self, invocation: CommandContext, telescope: Seq<char>) -> Result<
        (),
        Seq<char>,
    > {
        match self.routed(invocation.channel_id) {
            Some(mapped) => if mapped == telescope {
                Ok(())
            } else {
                Err("Telescope '"@ + telescope + "' is not routed to this Discord channel."@)
            },
            None => Err("No telescope is routed to this Discord channel."@),
        }
    }

    /// Adds a telescope; it takes the place of one with the same name.
    pub fn insert_rig(&mut self, name: String, source: SharedRigSource)
        ensures
            final(self).channel_to_telescope == old(self).channel_to_telescope,
            final(self).write_acl == old(self).write_acl,
            entry_names(final(self).rig_sources@) == (if entry_names(
                old(self).rig_sources@,
            ).contains(name@) {
                entry_names(old(self).rig_sources@)
            } else {
                entry_names(old(self).rig_sources@).push(name@)
            }),
            old(self).wf() ==> final(self).wf(),
            source_named(final(self).rig_sources@, name@) == Some(source),
            forall|other: Seq<char>|
                other != name@ ==> #[trigger] source_named(final(self).rig_sources@, other)
                    == source_named(old(self).rig_sources@, other),
    {
        let ghost before = self.rig_sources@;
        let mut i: usize = 0;
        while i < self.rig_sources.len()
            invariant
                i <= self.rig_sources@.len(),
                self.rig_sources@ == before,
                before == old(self).rig_sources@,
                self.channel_to_telescope == old(self).channel_to_telescope,
                self.write_acl == old(self).write_acl,
                forall|j: int| 0 <= j < i ==> (#[trigger] before[j]).name@ != name@,
            decreases self.rig_sources@.len() - i,
        {
            if same(self.rig_sources[i].name.as_str(), name.as_str()) {
                self.rig_sources.set(i, RigEntry { name, source });
                proof {
                    assert(entry_names(before)[i as int] == name@);
                    assert(entry_names(self.rig_sources@) =~= entry_names(before));
                    lemma_source_at(self.rig_sources@, name@, i as int);
                    assert forall|other: Seq<char>| other != name@ implies #[trigger] source_named(
                        self.rig_sources@,
                        other,
                    ) == source_named(before, other) by {
                        lemma_source_replaced(before, self.rig_sources@, other, i as int);
                    }
                }
                return;
            }
            i += 1;
        }
        self.rig_sources.push(RigEntry { name, source });
        proof {
            let names = entry_names(before);
            assert(entry_names(self.rig_sources@) =~= names.push(name@));
            assert(!names.contains(name@)) by {
                if names.contains(name@) {
                    let j = choose|j: int| 0 <= j < names.len() && names[j] == name@;
                    assert(before[j].name@ == name@);
                }
            }
            if old(self).wf() {
                let all = names.push(name@);
                assert forall|x: int, y: int|
                    0 <= x < all.len() && 0 <= y < all.len() && x != y implies all[x] != all[y] by {
                    if x < names.len() {
                        assert(names.contains(names[x]));
                    }
                    if y < names.len() {
                        assert(names.contains(names[y]));
                    }
                }
            }
            lemma_source_at(self.rig_sources@, name@, i as int);
            assert forall|other: Seq<char>| other != name@ implies #[trigger] source_named(
                self.rig_sources@,
                other,
            ) == source_named(before, other) by {
                lemma_source_added(before, self.rig_sources@.last(), other);
            }
        }
    }

    fn find(&self, name: &str) -> (r: Option<SharedRigSource>)
        ensures
            r == source_named(self.rig_sources@, name@),
    {
        let mut i: usize = 0;
        assert(self.rig_sources@.subrange(0, self.rig_sources@.len() as int)
            =~= self.rig_sources@);
        while i < self.rig_sources.len()
            invariant
                i <= self.rig_sources@.len(),
                source_named(
                    self.rig_sources@.subrange(i as int, self.rig_sources@.len() as int),
                    name@,
                ) == source_named(self.rig_sources@, name@),
            decreases self.rig_sources@.len() - i,
        {
            proof {
                let rest = self.rig_sources@.subrange(i as int, self.rig_sources@.len() as int);
                assert(rest.subrange(1, rest.len() as int) =~= self.rig_sources@.subrange(
                    i + 1,
                    self.rig_sources@.len() as int,
                ));
            }
            if same(self.rig_sources[i].name.as_str(), name) {
                return Some(self.rig_sources[i].source);
            }
            i += 1;
        }
        None
    }

    /// The names of the telescopes in ascending order.
    pub fn known_names(&self) -> (r: Vec<String>)
        ensures
            views(r@) == in_order(entry_names(self.rig_sources@)),
    {
        let mut sorted: Vec<String> = Vec::new();
        let ghost names = entry_names(self.rig_sources@);
        let mut i: usize = 0;
        assert(views(sorted@) =~= names.subrange(0, 0));
        while i < self.rig_sources.len()
            invariant
                i <= self.rig_sources@.len(),
                names == entry_names(self.rig_sources@),
                views(sorted@) == in_order(names.subrange(0, i as int)),
            decreases self.rig_sources@.len() - i,
        {
            proof {
                let now = names.subrange(0, i + 1);
                assert(now.drop_last() =~= names.subrange(0, i as int));
                assert(now.last() == self.rig_sources@[i as int].name@);
            }
            place(&mut sorted, self.rig_sources[i].name.clone());
            i += 1;
        }
        assert(names.subrange(0, i as int) =~= names);
        sorted
    }

    fn known_text(&self) -> (r: String)
        ensures
            r@ == self.known_listing(),
    {
        let names = self.known_names();
        let mut shown: Vec<String> = Vec::new();
        let mut i: usize = 0;
        while i < names.len()
            invariant
                i <= names@.len(),
                shown@.len() == i,
                forall|j: int| 0 <= j < i ==> (#[trigger] shown@[j])@ == quoted_text(names@[j]@),
            decreases names@.len() - i,
        {
            shown.push(quoted(names[i].as_str()));
            i += 1;
        }
        proof {
            let wanted = views(names@).map_values(|n: Seq<char>| quoted_text(n));
            assert(views(shown@) =~= wanted);
        }
        let body = join(&shown, ", ");
        cat3("[", body.as_str(), "]")
    }

    /// A channel belongs to one telescope only, whoever asks: a manager of another server cannot
    /// name this server's telescope.
    pub fn ensure_channel_route(&self, invocation: &CommandContext, telescope: &str) -> (r: Result<
        (),
        String,
    >)
        ensures
            permission_view(r) == self.route(*invocation, telescope@),
    {
        match self.channel_to_telescope.get(&invocation.channel_id) {
            Some(mapped) => if same(mapped.as_str(), telescope) {
                Ok(())
            } else {
                Err(cat3("Telescope '", telescope, "' is not routed to this Discord channel."))
            },
            None => Err(String::from_str("No telescope is routed to this Discord channel.")),
        }
    }
}

impl RigResolver for StaticRigResolver {
    /// Every channel belongs to a known telescope.
    open spec fn ready(&self) -> bool {
        &&& self.wf()
        &&& forall|channel: u64| #[trigger]
            self.channel_to_telescope@.contains_key(channel) ==> source_named(
                self.rig_sources@,
                self.channel_to_telescope@[channel]@,
            ) is Some
    }

    open spec fn resolution(
        &self,
        invocation: CommandContext,
        override_name: Option<Seq<char>>,
    ) -> Result<(Seq<char>, SharedRigSource), Seq<char>> {
        match override_name {
            Some(name) => match self.route(invocation, name) {
                Err(e) => Err(e),
                Ok(_) => match source_named(self.rig_sources@, name) {
                    Some(source) => Ok((name, source)),
                    None => Err(
                        "Unknown telescope '"@ + name + "'. Known: "@ + self.known_listing(),
                    ),
                },
            },
            None => match self.routed(invocation.channel_id) {
                Some(name) => Ok((name, source_named(self.rig_sources@, name)->0)),
                None => Err(
                    "No telescope mapped to this channel. Pass `telescope:<name>`. Known: "@
                        + self.known_listing(),
                ),
            },
        }
    }

    /// Only in a server, only on the channel's own telescope, only where its owner has allowed
    /// commands, and only for the users listed or, where none is, for managers of the server.
    open spec fn permission(&self, invocation: CommandContext, telescope: Seq<char>) -> Result<
        (),
        Seq<char>,
    > {
        if invocation.guild_id is None {
            Err("Write commands only work in a Discord server, not direct messages."@)
        } else {
            match self.route(invocation, telescope) {
                Err(e) => Err(e),
                Ok(_) => match source_named(self.rig_sources@, telescope) {
                    None => Err("Unknown telescope '"@ + telescope + "'."@),
                    Some(source) => if !source.capabilities.commands {
                        Err(
                            "Telescope control is disabled in N.I.N.A. Its owner must enable remote control and approve at least one individual command in the Chatstronomy plugin."@,
                        )
                    } else if self.write_acl@.len() == 0 {
                        if invocation.manages_guild {
                            Ok(())
                        } else {
                            Err(
                                "Write commands are limited to Discord server managers unless an explicit user allowlist is configured."@,
                            )
                        }
                    } else if self.write_acl@.contains(invocation.user_id) {
                        Ok(())
                    } else {
                        Err(
                            "You are not authorized to run write commands. Your user ID `"@ + dec(
                                invocation.user_id as nat,
                            ) + "` is not in `chat.discord_bot.write_acl`."@,
                        )
                    },
                },
            }
        }
    }

    fn resolve(&self, invocation: &CommandContext, override_name: Option<&str>) -> (r: Result<
        (String, SharedRigSource),
        String,
    >) {
        if let Some(name) = override_name {
            if let Err(e) = self.ensure_channel_route(invocation, name) {
                return Err(e);
            }
            return match self.find(name) {
                Some(source) => Ok((String::from_str(name), source)),
                None => {
                    let known = self.known_text();
                    Err(crate::text::cat4("Unknown telescope '", name, "'. Known: ", known.as_str()))
                },
            };
        }
        match self.channel_to_telescope.get(&invocation.channel_id) {
            Some(name) => match self.find(name.as_str()) {
                Some(source) => Ok((name.clone(), source)),
                None => {
                    assert(self.channel_to_telescope@.contains_key(invocation.channel_id));
                    Err(String::new())
                },
            },
            None => {
                let known = self.known_text();
                Err(
                    cat2(
                        "No telescope mapped to this channel. Pass `telescope:<name>`. Known: ",
                        known.as_str(),
                    ),
                )
            },
        }
    }

    fn write_allowed(&self, invocation: &CommandContext, telescope: &str) -> (r: Result<
        (),
        String,
    >) {
        if invocation.guild_id.is_none() {
            return Err(
                String::from_str(
                    "Write commands only work in a Discord server, not direct messages.",
                ),
            );
        }
        if let Err(e) = self.ensure_channel_route(invocation, telescope) {
            return Err(e);
        }
        let source: SharedRigSource = match self.find(telescope) {
            Some(source) => source,
            None => {
                return Err(cat3("Unknown telescope '", telescope, "'."));
            },
        };
        if !source.capabilities.commands {
            return Err(
                String::from_str(
                    "Telescope control is disabled in N.I.N.A. Its owner must enable remote control and approve at least one individual command in the Chatstronomy plugin.",
                ),
            );
        }
        if self.write_acl.len() == 0 {
            return if invocation.manages_guild {
                Ok(())
            } else {
                Err(
                    String::from_str(
                        "Write commands are limited to Discord server managers unless an explicit user allowlist is configured.",
                    ),
                )
            };
        }
        if self.write_acl.contains(&invocation.user_id) {
            return Ok(());
        }
        let number = decimal(invocation.user_id as u128);
        Err(
            cat3(
                "You are not authorized to run write commands. Your user ID `",
                number.as_str(),
                "` is not in `chat.discord_bot.write_acl`.",
            ),
        )
    }
}

/// The first telescope with a name is the one found.
proof fn lemma_source_at(entries: Seq<RigEntry>, name: Seq<char>, i: int)
    requires
        0 <= i < entries.len(),
        entries[i].name@ == name,
        forall|j: int| 0 <= j < i ==> (#[trigger] entries[j]).name@ != name,
    ensures
        source_named(entries, name) == Some(entries[i].source),
    decreases i,
{
    if i > 0 {
        let rest = entries.subrange(1, entries.len() as int);
        assert(entries[0].name@ != name);
        assert forall|j: int| 0 <= j < i - 1 implies (#[trigger] rest[j]).name@ != name by {
            assert(rest[j] == entries[j + 1]);
        }
        lemma_source_at(rest, name, i - 1);
    }
}

/// Replacing a telescope under its own name leaves the others.
proof fn lemma_source_replaced(a: Seq<RigEntry>, b: Seq<RigEntry>, other: Seq<char>, i: int)
    requires
        a.len() == b.len(),
        0 <= i < a.len(),
        forall|j: int| 0 <= j < a.len() && j != i ==> a[j] == b[j],
        a[i].name@ != other,
        b[i].name@ != other,
    ensures
        source_named(a, other) == source_named(b, other),
    decreases a.len(),
{
    let x = a.subrange(1, a.len() as int);
    let y = b.subrange(1, b.len() as int);
    if i > 0 {
        assert(a[0] == b[0]);
        lemma_source_replaced(x, y, other, i - 1);
    } else {
        assert(x =~= y);
    }
}

/// Adding a telescope leaves the others.
proof fn lemma_source_added(entries: Seq<RigEntry>, entry: RigEntry, other: Seq<char>)
    requires
        entry.name@ != other,
    ensures
        source_named(entries.push(entry), other) == source_named(entries, other),
    decreases entries.len(),
{
    let all = entries.push(entry);
    if entries.len() > 0 {
        let rest = entries.subrange(1, entries.len() as int);
        assert(all.subrange(1, all.len() as int) =~= rest.push(entry));
        assert(all[0] == entries[0]);
        lemma_source_added(rest, entry, other);
    } else {
        let rest = all.subrange(1, all.len() as int);
        assert(rest =~= Seq::<RigEntry>::empty());
        assert(all[0] == entry);
        assert(source_named(rest, other) is None);
    }
}

/// Nobody runs write commands from a direct message.
pub proof fn direct_messages_never_write(
    r: &StaticRigResolver,
    invocation: CommandContext,
    telescope: Seq<char>,
)
    requires
        invocation.guild_id is None,
    ensures
        r.permission(invocation, telescope) is Err,
{
}

/// Permission is given only on the telescope that the command's channel belongs to.
pub proof fn permission_stays_within_the_channel(
    r: &StaticRigResolver,
    invocation: CommandContext,
    telescope: Seq<char>,
)
    requires
        r.permission(invocation, telescope) is Ok,
    ensures
        r.routed(invocation.channel_id) == Some(telescope),
{
}

/// A telescope whose owner has not allowed commands takes none, whoever asks.
pub proof fn locked_telescopes_take_no_commands(
    r: &StaticRigResolver,
    invocation: CommandContext,
    telescope: Seq<char>,
)
    requires
        source_named(r.rig_sources@, telescope) matches Some(s) && !s.capabilities.commands,
    ensures
        r.permission(invocation, telescope) is Err,
{
}

/// An explicit list of users is authoritative: managing the server grants nothing beside it.
pub proof fn an_allowlist_is_authoritative(
    r: &StaticRigResolver,
    invocation: CommandContext,
    telescope: Seq<char>,
)
    requires
        r.write_acl@.len() > 0,
        !r.write_acl@.contains(invocation.user_id),
    ensures
        r.permission(invocation, telescope) is Err,
{
}

/// The names that a resolver lists are those of its telescopes, each before all that follow it.
pub proof fn known_names_ascend(resolver: StaticRigResolver)
    requires
        resolver.wf(),
    ensures
        ascending(in_order(entry_names(resolver.rig_sources@))),
        forall|name: Seq<char>| #[trigger]
            in_order(entry_names(resolver.rig_sources@)).contains(name) <==> entry_names(
                resolver.rig_sources@,
            ).contains(name),
{
    names_in_order_ascend(entry_names(resolver.rig_sources@));
}

} // verus!
