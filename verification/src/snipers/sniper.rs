//! The state of one sniper and the decisions it takes on the bot's messages.
use vstd::prelude::*;
use vstd::string::StringExecFns;

use crate::commands::types::CommandFeedback;
use crate::commands::MUDAE_BOT_ID;
use crate::entities::badge::Badge;
use crate::entities::instance::Instance;
use crate::entities::kakera::{
    lemma_emoji_kakera_keeps_value, spec_kakera_from_emoji_id, spec_kakera_value, Kakera,
};
use crate::entities::message::{ButtonKindData, ComponentData, EmojiData, MessageData};
use crate::entities::statistics::Statistics;
use crate::snipers::errors::{CaptureError, UpdateStatisticsError};
use crate::text::{decimal_digits, decimal_string, parse_u64_chars, parse_unsigned, pieces_from, split_chars};
use crate::tasks::{record_daily_claim, record_daily_kakera_claim, DAILY_COOLDOWN_MILLIS, MAX_WAIT_INSTANT};
use crate::utils::{extract_statistics_at, spec_extract_statistics, MAX_TIME_MILLIS};

verus! {

/// The application id of the Mudae bot, as interactions name it.
pub const MUDAE_APPLICATION_ID: u64 = 432610292342587392;

/// The interaction type of a pressed component.
pub const COMPONENT_INTERACTION: u8 = 3;

/// The component type of a button.
pub const BUTTON_COMPONENT: u8 = 2;

/// The sniper of one channel: the channel, the player's statistics and badges there,
/// the guild, and whether its tasks run.
pub struct Sniper {
    instance: Instance,
    statistics: Statistics,
    pub guild_id: u64,
    pub running: bool,
    pub badges: Vec<Badge>,
}

/// What sniping the kakera of a message did: the custom ids of the buttons pressed, in
/// order; the crystals gained, in order; and whether it stopped short (at a kakera
/// button without an emoji, or at a gain that would overflow the stock); the caller
/// must not go on after a stop.
pub struct KakeraSnipe {
    pub clicks: Vec<String>,
    pub kakeras: Vec<Kakera>,
    pub halted: bool,
}

/// The body of the interaction that presses the button `custom_id` of a message.
pub struct ClickPayload {
    pub kind: u8,
    pub guild_id: String,
    pub channel_id: String,
    pub message_id: String,
    pub application_id: String,
    pub session_id: String,
    pub component_type: u8,
    pub custom_id: String,
}

/// The state of sniping partway through a row: the statistics, the custom ids pressed,
/// the crystals gained, and whether it has halted.
pub type SnipeState = (Statistics, Seq<Seq<char>>, Seq<Kakera>, bool);

/// A message is a card the bot rolled in `channel_id`: the bot wrote it there, and it
/// has an embed with a description and at least one row of components.
pub open spec fn is_mudae_card_message(msg: MessageData, channel_id: u64) -> bool {
    &&& msg.author_id == MUDAE_BOT_ID
    &&& msg.channel_id == channel_id
    &&& msg.embeds@.len() > 0
    &&& msg.embeds@[0].description is Some
    &&& msg.rows@.len() > 0
}

/// The kakera amount a loot message's description ends with: its last `'\n'`-separated
/// piece, read as a `u16`.
pub open spec fn description_value(d: Seq<char>) -> Option<u16> {
    match parse_unsigned(pieces_from(d, '\n', 0).last(), u16::MAX as nat) {
        Some(v) => Some(v as u16),
        None => None,
    }
}

/// One component of the row, met in state `o`: a kakera button is pressed when the
/// reaction power covers its cost, and when its emoji names a crystal and the
/// description gives an amount, the cost is paid, the amount stocked and the crystal
/// gained. A non-link button without an emoji halts; any other component is passed over.
pub open spec fn snipe_step(o: SnipeState, c: ComponentData, value: Option<u16>) -> SnipeState {
    let st = o.0;
    if st.kakera_power < st.kakera_cost {
        o
    } else {
        match c {
            ComponentData::Button { data: ButtonKindData::NonLink { custom_id, style: _ }, emoji } => {
                match emoji {
                    None => (st, o.1, o.2, true),
                    Some(EmojiData::Custom(id)) => {
                        let clicked = o.1.push(custom_id@);
                        match value {
                            None => (st, clicked, o.2, false),
                            Some(v) => match spec_kakera_from_emoji_id(id, v) {
                                None => (st, clicked, o.2, false),
                                Some(k) => {
                                    let paid = Statistics {
                                        kakera_power: (st.kakera_power - st.kakera_cost) as u8,
                                        ..st
                                    };
                                    if st.kakera_stock as int + v as int > u32::MAX {
                                        (paid, clicked, o.2, true)
                                    } else {
                                        (
                                            Statistics {
                                                kakera_stock: (st.kakera_stock + v) as u32,
                                                ..paid
                                            },
                                            clicked,
                                            o.2.push(k),
                                            false,
                                        )
                                    }
                                },
                            },
                        }
                    },
                    Some(EmojiData::Unicode(_)) => o,
                }
            },
            _ => o,
        }
    }
}

/// The state after the components `comps`, met in order from `st`, stopping at a halt.
pub open spec fn snipe_fold(st: Statistics, comps: Seq<ComponentData>, value: Option<u16>) -> SnipeState
    decreases comps.len(),
{
    if comps.len() == 0 {
        (st, Seq::empty(), Seq::empty(), false)
    } else {
        let prev = snipe_fold(st, comps.drop_last(), value);
        if prev.3 {
            prev
        } else {
            snipe_step(prev, comps.last(), value)
        }
    }
}

/// What sniping the message `msg` does from the statistics `st` in the channel
/// `channel_id`: nothing unless it is a card the bot rolled there; otherwise the
/// components of its first row are met in order.
pub open spec fn spec_snipe_kakeras(st: Statistics, msg: MessageData, channel_id: u64) -> SnipeState {
    if is_mudae_card_message(msg, channel_id) {
        match msg.embeds@[0].description {
            Some(d) => snipe_fold(st, msg.rows@[0]@, description_value(d@)),
            None => (st, Seq::empty(), Seq::empty(), false),
        }
    } else {
        (st, Seq::empty(), Seq::empty(), false)
    }
}

/// Which button claims a rolled card: the first component of the first row, which must
/// be a button that sends an interaction.
pub open spec fn spec_capture_card(msg: MessageData) -> Result<Seq<char>, CaptureError> {
    if msg.rows@.len() == 0 || msg.rows@[0]@.len() == 0 {
        Err(CaptureError::MissingComponent)
    } else {
        match msg.rows@[0]@[0] {
            ComponentData::Button { data: ButtonKindData::NonLink { custom_id, style: _ }, emoji: _ } => Ok(
                custom_id@,
            ),
            ComponentData::Button { data, emoji: _ } => Err(CaptureError::InvalidButton(data)),
            other => Err(CaptureError::NotAButton(other)),
        }
    }
}

/// The first component of the message's first row is a button that sends an
/// interaction, with the custom id `id`.
pub open spec fn first_component_claims(msg: MessageData, id: Seq<char>) -> bool {
    &&& msg.rows@.len() > 0
    &&& msg.rows@[0]@.len() > 0
    &&& msg.rows@[0]@[0] matches ComponentData::Button {
        data: ButtonKindData::NonLink { custom_id, style: _ },
        emoji: _,
    } && custom_id@ == id
}

/// Capturing a card presses the first component of its first row: it succeeds exactly
/// when that component is a button that sends an interaction, and gives that button's
/// custom id; whatever the other components are.
pub proof fn lemma_capture_presses_first_component(msg: MessageData)
    ensures
        spec_capture_card(msg) matches Ok(id) ==> first_component_claims(msg, id),
        forall|id: Seq<char>| #[trigger] first_component_claims(msg, id) ==> spec_capture_card(msg)
            == Ok::<Seq<char>, CaptureError>(id),
{
}

/// The amount a loot message's description ends with (see `description_value`).
pub fn last_line_value(d: &String) -> (r: Option<u16>)
    ensures
        r == description_value(d@),
{
    let pieces = split_chars(d.as_str(), '\n');
    let ghost all = pieces_from(d@, '\n', 0);
    assert(all.len() > 0);
    let last = &pieces[pieces.len() - 1];
    assert(last@ == all.last());
    match parse_u64_chars(last) {
        Some(v) => if v <= u16::MAX as u64 {
            Some(v as u16)
        } else {
            None
        },
        None => None,
    }
}

impl Sniper {
    /// The channel this sniper plays in.
    pub closed spec fn spec_instance(&self) -> Instance {
        self.instance
    }

    /// The statistics this sniper keeps.
    pub closed spec fn spec_statistics(&self) -> Statistics {
        self.statistics
    }

    /// The guild this sniper plays in.
    pub closed spec fn spec_guild_id(&self) -> u64 {
        self.guild_id
    }

    /// Whether this sniper's tasks run.
    pub closed spec fn spec_running(&self) -> bool {
        self.running
    }

    /// The player's badges.
    pub closed spec fn spec_badges(&self) -> Seq<Badge> {
        self.badges@
    }

    /// A running sniper for `instance` in the guild `guild_id`, with the player's
    /// statistics and badges there.
    pub fn new(guild_id: u64, statistics: Statistics, badges: Vec<Badge>, instance: Instance) -> (r:
        Sniper)
        ensures
            r.spec_instance() == instance,
            r.spec_statistics() == statistics,
            r.spec_guild_id() == guild_id,
            r.spec_running(),
            r.spec_badges() == badges@,
    {
        Sniper { guild_id, running: true, statistics, badges, instance }
    }

    /// A copy of the channel this sniper plays in.
    pub fn instance_copy(&self) -> (r: Instance)
        ensures
            r == self.spec_instance(),
    {
        Instance {
            name: self.instance.name.clone(),
            channel_id: self.instance.channel_id,
            roll_after_claim: self.instance.roll_after_claim,
        }
    }

    /// The channel this sniper plays in.
    pub fn instance_ref(&self) -> (r: &Instance)
        ensures
            *r == self.spec_instance(),
    {
        &self.instance
    }

    /// A copy of the statistics.
    pub fn statistics_copy(&self) -> (r: Statistics)
        ensures
            r == self.spec_statistics(),
    {
        self.statistics
    }

    /// The statistics.
    pub fn statistics_ref(&self) -> (r: &Statistics)
        ensures
            *r == self.spec_statistics(),
    {
        &self.statistics
    }

    /// Takes the answer to a `$tu` command read at the instant `now`: a message is read
    /// as statistics, which replace the kept ones; an unreadable message leaves them and
    /// gives `InvalidStatistics`; no message leaves them and gives `MissingCommandFeedback`.
    pub fn update_statistics(&mut self, feedback: Option<CommandFeedback>, now: i64) -> (r: Result<
        (),
        UpdateStatisticsError,
    >)
        requires
            -MAX_TIME_MILLIS <= now <= MAX_TIME_MILLIS,
        ensures
            final(self).spec_instance() == old(self).spec_instance(),
            final(self).spec_guild_id() == old(self).spec_guild_id(),
            final(self).spec_running() == old(self).spec_running(),
            final(self).spec_badges() == old(self).spec_badges(),
            match feedback {
                Some(CommandFeedback::Msg(m)) => match spec_extract_statistics(m.content@, now as int) {
                    Ok(s) => r is Ok && final(self).spec_statistics() == s,
                    Err(e) => r == Err::<(), UpdateStatisticsError>(
                        UpdateStatisticsError::InvalidStatistics(e),
                    ) && final(self).spec_statistics() == old(self).spec_statistics(),
                },
                _ => r == Err::<(), UpdateStatisticsError>(
                    UpdateStatisticsError::MissingCommandFeedback,
                ) && final(self).spec_statistics() == old(self).spec_statistics(),
            },
    {
        match feedback {
            Some(CommandFeedback::Msg(m)) => match extract_statistics_at(m.content.as_str(), now) {
                Ok(s) => {
                    self.statistics = s;
                    Ok(())
                },
                Err(e) => Err(UpdateStatisticsError::InvalidStatistics(e)),
            },
            _ => Err(UpdateStatisticsError::MissingCommandFeedback),
        }
    }

    /// Records that `$daily` was claimed at `now`: it comes back 20 hours later.
    pub fn record_daily_claim(&mut self, now: i64)
        requires
            -MAX_WAIT_INSTANT <= now <= MAX_WAIT_INSTANT,
        ensures
            final(self).spec_statistics() == (Statistics {
                next_daily: (now + DAILY_COOLDOWN_MILLIS) as i64,
                ..old(self).spec_statistics()
            }),
            final(self).spec_instance() == old(self).spec_instance(),
            final(self).spec_guild_id() == old(self).spec_guild_id(),
            final(self).spec_running() == old(self).spec_running(),
            final(self).spec_badges() == old(self).spec_badges(),
    {
        self.statistics = record_daily_claim(&self.statistics, now);
    }

    /// Records that `$dk` was claimed at `now`: the stock becomes the amount the answer
    /// showed, when it showed one, and `$dk` comes back 20 hours later.
    pub fn record_daily_kakera_claim(&mut self, stock: Option<u32>, now: i64)
        requires
            -MAX_WAIT_INSTANT <= now <= MAX_WAIT_INSTANT,
        ensures
            final(self).spec_statistics() == (Statistics {
                kakera_stock: match stock {
                    Some(v) => v,
                    None => old(self).spec_statistics().kakera_stock,
                },
                next_dk: (now + DAILY_COOLDOWN_MILLIS) as i64,
                ..old(self).spec_statistics()
            }),
            final(self).spec_instance() == old(self).spec_instance(),
            final(self).spec_guild_id() == old(self).spec_guild_id(),
            final(self).spec_running() == old(self).spec_running(),
            final(self).spec_badges() == old(self).spec_badges(),
    {
        self.statistics = record_daily_kakera_claim(&self.statistics, stock, now);
    }

    /// The custom id of the button that claims the card `message` shows (see
    /// `spec_capture_card`), or why there is none.
    pub fn capture_card(&self, message: &MessageData) -> (r: Result<String, CaptureError>)
        ensures
            match r {
                Ok(id) => spec_capture_card(*message) == Ok::<Seq<char>, CaptureError>(id@),
                Err(e) => spec_capture_card(*message) == Err::<Seq<char>, CaptureError>(e),
            },
            r matches Ok(id) ==> first_component_claims(*message, id@),
            (exists|c: Seq<char>| first_component_claims(*message, c)) ==> r is Ok,
    {
        proof {
            lemma_capture_presses_first_component(*message);
        }
        if message.rows.len() == 0 || message.rows[0].len() == 0 {
            return Err(CaptureError::MissingComponent);
        }
        let component = &message.rows[0][0];
        match component {
            ComponentData::Button { data, emoji: _ } => match data {
                ButtonKindData::NonLink { custom_id, style: _ } => Ok(custom_id.clone()),
                _ => Err(CaptureError::InvalidButton(data.clone())),
            },
            _ => Err(CaptureError::NotAButton(component.clone())),
        }
    }

    /// Snipes the kakera of `message` (see `spec_snipe_kakeras`): the statistics pay for
    /// and stock what is gained; the result lists the buttons to press, in order, and the
    /// crystals gained.
    pub fn snipe_kakeras(&mut self, message: &MessageData) -> (r: KakeraSnipe)
        ensures
            final(self).spec_instance() == old(self).spec_instance(),
            final(self).spec_guild_id() == old(self).spec_guild_id(),
            final(self).spec_running() == old(self).spec_running(),
            final(self).spec_badges() == old(self).spec_badges(),
            ({
                let o = spec_snipe_kakeras(
                    old(self).spec_statistics(),
                    *message,
                    old(self).spec_instance().channel_id,
                );
                &&& final(self).spec_statistics() == o.0
                &&& r.clicks@.map_values(|c: String| c@) == o.1
                &&& r.kakeras@ == o.2
                &&& r.halted == o.3
            }),
    {
        let mut out = KakeraSnipe { clicks: Vec::new(), kakeras: Vec::new(), halted: false };
        assert(out.clicks@.map_values(|c: String| c@) =~= Seq::<Seq<char>>::empty());
        if !(message.author_id == MUDAE_BOT_ID && message.channel_id == self.instance.channel_id
            && message.embeds.len() > 0 && message.rows.len() > 0) {
            return out;
        }
        let desc = match &message.embeds[0].description {
            Some(d) => d,
            None => return out,
        };
        let value = last_line_value(desc);
        let comps = &message.rows[0];
        let ghost st0 = self.statistics;
        let mut k: usize = 0;
        while k < comps.len()
            invariant
                k <= comps.len(),
                self.instance == old(self).instance,
                self.guild_id == old(self).guild_id,
                self.running == old(self).running,
                self.badges == old(self).badges,
                ({
                    let o = snipe_fold(st0, comps@.take(k as int), value);
                    &&& self.statistics == o.0
                    &&& out.clicks@.map_values(|c: String| c@) == o.1
                    &&& out.kakeras@ == o.2
                    &&& out.halted == o.3
                }),
            decreases comps.len() - k,
        {
            assert(comps@.take(k + 1).drop_last() =~= comps@.take(k as int));
            assert(comps@.take(k + 1).last() == comps@[k as int]);
            let ghost before_clicks = out.clicks@;
            if !out.halted && self.statistics.kakera_power >= self.statistics.kakera_cost {
                match &comps[k] {
                    ComponentData::Button { data: ButtonKindData::NonLink { custom_id, style: _ }, emoji } => {
                        match emoji {
                            None => {
                                out.halted = true;
                            },
                            Some(EmojiData::Custom(id)) => {
                                out.clicks.push(custom_id.clone());
                                assert(out.clicks@.map_values(|c: String| c@) =~= before_clicks.map_values(
                                    |c: String| c@,
                                ).push(custom_id@));
                                match value {
                                    Some(v) => match Kakera::from_emoji_id(*id, v) {
                                        Some(kakera) => {
                                            self.statistics.kakera_power = self.statistics.kakera_power
                                                - self.statistics.kakera_cost;
                                            if self.statistics.kakera_stock > u32::MAX - (v as u32) {
                                                out.halted = true;
                                            } else {
                                                self.statistics.kakera_stock = self.statistics.kakera_stock
                                                    + v as u32;
                                                out.kakeras.push(kakera);
                                            }
                                        },
                                        None => {},
                                    },
                                    None => {},
                                }
                            },
                            Some(EmojiData::Unicode(_)) => {},
                        }
                    },
                    _ => {},
                }
            }
            k = k + 1;
        }
        assert(comps@.take(comps.len() as int) =~= comps@);
        out
    }

    /// The body of the interaction that presses the button `custom_id` of the message
    /// `message_id` in this sniper's channel; `session_millis` serves as the session id.
    pub fn click_payload(&self, custom_id: &str, message_id: u64, session_millis: u64) -> (r:
        ClickPayload)
        ensures
            r.kind == COMPONENT_INTERACTION,
            r.guild_id@ == decimal_digits(self.spec_guild_id() as nat),
            r.channel_id@ == decimal_digits(self.spec_instance().channel_id as nat),
            r.message_id@ == decimal_digits(message_id as nat),
            r.application_id@ == decimal_digits(MUDAE_APPLICATION_ID as nat),
            r.session_id@ == decimal_digits(session_millis as nat),
            r.component_type == BUTTON_COMPONENT,
            r.custom_id@ == custom_id@,
    {
        ClickPayload {
            kind: COMPONENT_INTERACTION,
            guild_id: decimal_string(self.guild_id),
            channel_id: decimal_string(self.instance.channel_id),
            message_id: decimal_string(message_id),
            application_id: decimal_string(MUDAE_APPLICATION_ID),
            session_id: decimal_string(session_millis),
            component_type: BUTTON_COMPONENT,
            custom_id: String::from_str(custom_id),
        }
    }
}

/// The total amount the crystals carry.
pub open spec fn total_value(ks: Seq<Kakera>) -> int
    decreases ks.len(),
{
    if ks.len() == 0 {
        0
    } else {
        total_value(ks.drop_last()) + spec_kakera_value(ks.last())
    }
}

/// Sniping a row keeps the books: the reaction power never grows and pays the cost once
/// per crystal gained (once more when it stopped at a gain that would overflow the
/// stock), the stock grows by exactly what the gained crystals carry, each crystal
/// carries the amount the description gives, a button was pressed for each crystal, and
/// no other statistic moves.
pub proof fn lemma_snipe_fold_accounting(st: Statistics, comps: Seq<ComponentData>, value: Option<u16>)
    ensures
        ({
            let o = snipe_fold(st, comps, value);
            &&& o.0.kakera_power <= st.kakera_power
            &&& (st.kakera_power - o.0.kakera_power == st.kakera_cost * o.2.len() || (o.3
                && st.kakera_power - o.0.kakera_power == st.kakera_cost * (o.2.len() + 1)))
            &&& o.0.kakera_stock == st.kakera_stock + total_value(o.2)
            &&& o.2.len() <= o.1.len()
            &&& o.0 == (Statistics { kakera_power: o.0.kakera_power, kakera_stock: o.0.kakera_stock, ..st })
            &&& forall|i: int| 0 <= i < o.2.len() ==> value == Some(spec_kakera_value(#[trigger] o.2[i]))
        }),
    decreases comps.len(),
{
    if comps.len() > 0 {
        lemma_snipe_fold_accounting(st, comps.drop_last(), value);
        let prev = snipe_fold(st, comps.drop_last(), value);
        let o = snipe_fold(st, comps, value);
        if !prev.3 {
            let c = comps.last();
            let cost = st.kakera_cost as int;
            let n = prev.2.len() as int;
            assert(cost * (n + 1) == cost * n + cost) by (nonlinear_arith);
            if prev.2.len() < o.2.len() {
                assert(o.2.drop_last() =~= prev.2);
                match c {
                    ComponentData::Button { data: ButtonKindData::NonLink { custom_id, style: _ }, emoji } => {
                        match emoji {
                            Some(EmojiData::Custom(id)) => {
                                lemma_emoji_kakera_keeps_value(id, value->0);
                            },
                            _ => {},
                        }
                    },
                    _ => {},
                }
                assert forall|i: int| 0 <= i < o.2.len() implies value == Some(spec_kakera_value(#[trigger] o.2[i])) by {
                    if i < prev.2.len() {
                        assert(o.2[i] == prev.2[i]);
                    }
                }
            } else {
                assert(o.2 =~= prev.2);
            }
        }
    }
}

/// Sniping a message keeps the books (see `lemma_snipe_fold_accounting`): the power pays
/// the cost once per crystal gained (once more at a stop on an overflowing gain), and
/// the stock grows by what the crystals carry.
pub proof fn lemma_snipe_accounting(st: Statistics, msg: MessageData, channel_id: u64)
    ensures
        ({
            let o = spec_snipe_kakeras(st, msg, channel_id);
            &&& o.0.kakera_power <= st.kakera_power
            &&& (st.kakera_power - o.0.kakera_power == st.kakera_cost * o.2.len() || (o.3
                && st.kakera_power - o.0.kakera_power == st.kakera_cost * (o.2.len() + 1)))
            &&& o.0.kakera_stock == st.kakera_stock + total_value(o.2)
            &&& o.2.len() <= o.1.len()
            &&& o.0 == (Statistics { kakera_power: o.0.kakera_power, kakera_stock: o.0.kakera_stock, ..st })
        }),
        !is_mudae_card_message(msg, channel_id) ==> spec_snipe_kakeras(st, msg, channel_id) == (
            st,
            Seq::<Seq<char>>::empty(),
            Seq::<Kakera>::empty(),
            false,
        ),
{
    if is_mudae_card_message(msg, channel_id) {
        match msg.embeds@[0].description {
            Some(d) => lemma_snipe_fold_accounting(st, msg.rows@[0]@, description_value(d@)),
            None => {},
        }
    }
}

/// Without the reaction power to pay the cost, sniping presses nothing and gains nothing.
pub proof fn lemma_snipe_needs_power(st: Statistics, comps: Seq<ComponentData>, value: Option<u16>)
    requires
        st.kakera_power < st.kakera_cost,
    ensures
        snipe_fold(st, comps, value) == (st, Seq::<Seq<char>>::empty(), Seq::<Kakera>::empty(), false),
    decreases comps.len(),
{
    if comps.len() > 0 {
        lemma_snipe_needs_power(st, comps.drop_last(), value);
    }
}

} // verus!
