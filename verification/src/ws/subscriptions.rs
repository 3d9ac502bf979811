//! The subscription set of a websocket client and the subscribe messages it
//! sends once the server reports the connection.

use vstd::prelude::*;

use crate::numeric::{append_i64, int_text};
use crate::ws::channel::{find_char, lemma_find_char_at, plain_channel_name};

verus! {

/// One subscribe request: the channel and, for private channels, the auth token.
#[derive(Debug, Clone)]
pub struct SubscriptionMessage {
    pub channel: String,
    pub auth: Option<String>,
}

/// What a subscribe request says, as plain text.
pub struct SubscriptionView {
    pub channel: Seq<char>,
    pub auth: Option<Seq<char>>,
}

pub open spec fn opt_text(s: Option<String>) -> Option<Seq<char>> {
    match s {
        Some(t) => Some(t@),
        None => None,
    }
}

impl View for SubscriptionMessage {
    type V = SubscriptionView;

    open spec fn view(&self) -> SubscriptionView {
        SubscriptionView { channel: self.channel@, auth: opt_text(self.auth) }
    }
}

/// A market/account pair subscribed on the `account_orders` channel.
#[derive(Debug, Clone, Copy)]
pub struct AccountOrdersSubscription {
    pub market_id: i64,
    pub account_id: i64,
}

/// The channel `name/id`.
pub open spec fn channel_for(name: Seq<char>, id: i64) -> Seq<char> {
    name + seq!['/'] + int_text(id as int)
}

/// One subscribe request per id, in order, on channel `name/id`.
pub open spec fn channel_group(ids: Seq<i64>, name: Seq<char>, auth: Option<Seq<char>>) -> Seq<
    SubscriptionView,
> {
    Seq::new(ids.len(), |i: int| SubscriptionView { channel: channel_for(name, ids[i]), auth })
}

/// One authenticated request per pair on `account_orders/market/account`.
pub open spec fn account_orders_group(
    subs: Seq<AccountOrdersSubscription>,
    auth: Option<Seq<char>>,
) -> Seq<SubscriptionView> {
    Seq::new(
        subs.len(),
        |i: int|
            SubscriptionView {
                channel: channel_for("account_orders"@, subs[i].market_id) + seq!['/'] + int_text(
                    subs[i].account_id as int,
                ),
                auth,
            },
    )
}

/// The channels a websocket client subscribes to.
#[derive(Debug, Clone)]
pub struct WsSubscriptions {
    pub auth_token: Option<String>,
    pub order_book_ids: Vec<i64>,
    pub ticker_ids: Vec<i64>,
    pub market_stats_ids: Vec<i64>,
    pub account_ids: Vec<i64>,
    pub account_all_positions_ids: Vec<i64>,
    pub account_all_assets_ids: Vec<i64>,
    pub account_spot_avg_entry_prices_ids: Vec<i64>,
    pub account_all_trades_ids: Vec<i64>,
    pub user_stats_ids: Vec<i64>,
    pub market_stats_all: bool,
    pub account_orders_subs: Vec<AccountOrdersSubscription>,
    pub account_all_orders_ids: Vec<i64>,
}

/// Copy of an optional token.
fn clone_token(t: &Option<String>) -> (res: Option<String>)
    ensures
        opt_text(res) == opt_text(*t),
{
    match t {
        Some(s) => Some(s.clone()),
        None => None,
    }
}

/// Append one request per id on channel `name/id`.
fn push_channel_group(
    out: &mut Vec<SubscriptionMessage>,
    ids: &Vec<i64>,
    name: &str,
    auth: &Option<String>,
)
    ensures
        final(out)@.map_values(|m: SubscriptionMessage| m@) == old(out)@.map_values(
            |m: SubscriptionMessage| m@,
        ) + channel_group(ids@, name@, opt_text(*auth)),
{
    let ghost start = out@.map_values(|m: SubscriptionMessage| m@);
    let mut i: usize = 0;
    while i < ids.len()
        invariant
            i <= ids@.len(),
            start == old(out)@.map_values(|m: SubscriptionMessage| m@),
            out@.map_values(|m: SubscriptionMessage| m@) =~= start + channel_group(
                ids@,
                name@,
                opt_text(*auth),
            ).take(i as int),
        decreases ids@.len() - i,
    {
        let mut channel = String::from_str(name);
        channel.append("/");
        append_i64(&mut channel, ids[i]);
        proof {
            reveal_strlit("/");
            assert(channel@ =~= channel_for(name@, ids@[i as int]));
        }
        let msg = SubscriptionMessage { channel, auth: clone_token(auth) };
        let ghost prev = out@;
        out.push(msg);
        i = i + 1;
        proof {
            assert(out@ =~= prev.push(msg));
            assert(out@.map_values(|m: SubscriptionMessage| m@) =~= prev.map_values(
                |m: SubscriptionMessage| m@,
            ).push(msg@));
            assert(channel_group(ids@, name@, opt_text(*auth)).take(i as int) =~= channel_group(
                ids@,
                name@,
                opt_text(*auth),
            ).take(i - 1).push(msg@));
        }
    }
    proof {
        assert(channel_group(ids@, name@, opt_text(*auth)).take(i as int) =~= channel_group(
            ids@,
            name@,
            opt_text(*auth),
        ));
    }
}

impl WsSubscriptions {
    /// Every request the client sends after connecting, in this order:
    /// order books, tickers, market stats and accounts without auth, then the
    /// account positions, assets, spot entry prices, trades and user stats
    /// channels with the auth token, `market_stats/all` if asked for, the
    /// account-orders pairs and the account-all-orders channels with the token.
    pub open spec fn spec_messages(self) -> Seq<SubscriptionView> {
        let auth = opt_text(self.auth_token);
        channel_group(self.order_book_ids@, "order_book"@, None) + channel_group(
            self.ticker_ids@,
            "ticker"@,
            None,
        ) + channel_group(self.market_stats_ids@, "market_stats"@, None) + channel_group(
            self.account_ids@,
            "account_all"@,
            None,
        ) + channel_group(self.account_all_positions_ids@, "account_all_positions"@, auth)
            + channel_group(self.account_all_assets_ids@, "account_all_assets"@, auth)
            + channel_group(
            self.account_spot_avg_entry_prices_ids@,
            "account_spot_avg_entry_prices"@,
            auth,
        ) + channel_group(self.account_all_trades_ids@, "account_all_trades"@, auth)
            + channel_group(self.user_stats_ids@, "user_stats"@, auth) + (if self.market_stats_all {
            seq![SubscriptionView { channel: "market_stats/all"@, auth: None }]
        } else {
            Seq::empty()
        }) + account_orders_group(self.account_orders_subs@, auth) + channel_group(
            self.account_all_orders_ids@,
            "account_all_orders"@,
            auth,
        )
    }

    pub open spec fn spec_has_subscriptions(self) -> bool {
        self.order_book_ids@.len() > 0 || self.ticker_ids@.len() > 0
            || self.market_stats_ids@.len() > 0 || self.account_ids@.len() > 0
            || self.account_all_positions_ids@.len() > 0 || self.account_all_assets_ids@.len() > 0
            || self.account_spot_avg_entry_prices_ids@.len() > 0
            || self.account_all_trades_ids@.len() > 0 || self.user_stats_ids@.len() > 0
            || self.market_stats_all || self.account_orders_subs@.len() > 0
            || self.account_all_orders_ids@.len() > 0
    }

    /// No subscription and no auth token.
    pub fn new() -> (res: Self)
        ensures
            res.auth_token is None,
            !res.spec_has_subscriptions(),
    {
        WsSubscriptions {
            auth_token: None,
            order_book_ids: Vec::new(),
            ticker_ids: Vec::new(),
            market_stats_ids: Vec::new(),
            account_ids: Vec::new(),
            account_all_positions_ids: Vec::new(),
            account_all_assets_ids: Vec::new(),
            account_spot_avg_entry_prices_ids: Vec::new(),
            account_all_trades_ids: Vec::new(),
            user_stats_ids: Vec::new(),
            market_stats_all: false,
            account_orders_subs: Vec::new(),
            account_all_orders_ids: Vec::new(),
        }
    }

    /// The same subscriptions, sent with the auth token `token`.
    pub fn with_auth_token(self, token: &str) -> (res: Self)
        ensures
            res.auth_token matches Some(t) && t@ == token@,
            res == (WsSubscriptions { auth_token: res.auth_token, ..self }),
    {
        let mut s = self;
        s.auth_token = Some(token.to_string());
        s
    }

    /// The same subscriptions, with the order books of `market_ids` replacing the earlier ones on that channel.
    pub fn subscribe_order_books(self, market_ids: Vec<i64>) -> (res: Self)
        ensures
            res == (WsSubscriptions { order_book_ids: market_ids, ..self }),
    {
        let mut s = self;
        s.order_book_ids = market_ids;
        s
    }

    /// The same subscriptions, with the tickers of `market_ids` replacing the earlier ones on that channel.
    pub fn subscribe_ticker(self, market_ids: Vec<i64>) -> (res: Self)
        ensures
            res == (WsSubscriptions { ticker_ids: market_ids, ..self }),
    {
        let mut s = self;
        s.ticker_ids = market_ids;
        s
    }

    /// The same subscriptions, with the market statistics of `market_ids` replacing the earlier ones on that channel.
    pub fn subscribe_market_stats(self, market_ids: Vec<i64>) -> (res: Self)
        ensures
            res == (WsSubscriptions { market_stats_ids: market_ids, ..self }),
    {
        let mut s = self;
        s.market_stats_ids = market_ids;
        s
    }

    /// The same subscriptions, with the `account_all` channels of `account_ids` replacing the earlier ones on that channel.
    pub fn subscribe_accounts(self, account_ids: Vec<i64>) -> (res: Self)
        ensures
            res == (WsSubscriptions { account_ids: account_ids, ..self }),
    {
        let mut s = self;
        s.account_ids = account_ids;
        s
    }

    /// The same subscriptions, with the positions of `account_ids` replacing the earlier ones on that channel.
    pub fn subscribe_account_all_positions(self, account_ids: Vec<i64>) -> (res: Self)
        ensures
            res == (WsSubscriptions { account_all_positions_ids: account_ids, ..self }),
    {
        let mut s = self;
        s.account_all_positions_ids = account_ids;
        s
    }

    /// The same subscriptions, with the assets of `account_ids` replacing the earlier ones on that channel.
    pub fn subscribe_account_all_assets(self, account_ids: Vec<i64>) -> (res: Self)
        ensures
            res == (WsSubscriptions { account_all_assets_ids: account_ids, ..self }),
    {
        let mut s = self;
        s.account_all_assets_ids = account_ids;
        s
    }

    /// The same subscriptions, with the spot entry prices of `account_ids` replacing the earlier ones on that channel.
    pub fn subscribe_account_spot_avg_entry_prices(self, account_ids: Vec<i64>) -> (res: Self)
        ensures
            res == (WsSubscriptions { account_spot_avg_entry_prices_ids: account_ids, ..self }),
    {
        let mut s = self;
        s.account_spot_avg_entry_prices_ids = account_ids;
        s
    }

    /// The same subscriptions, with the trades of `account_ids` replacing the earlier ones on that channel.
    pub fn subscribe_account_all_trades(self, account_ids: Vec<i64>) -> (res: Self)
        ensures
            res == (WsSubscriptions { account_all_trades_ids: account_ids, ..self }),
    {
        let mut s = self;
        s.account_all_trades_ids = account_ids;
        s
    }

    /// The same subscriptions, with all orders of `account_ids` replacing the earlier ones on that channel.
    pub fn subscribe_account_all_orders(self, account_ids: Vec<i64>) -> (res: Self)
        ensures
            res == (WsSubscriptions { account_all_orders_ids: account_ids, ..self }),
    {
        let mut s = self;
        s.account_all_orders_ids = account_ids;
        s
    }

    /// The same subscriptions, with the user statistics of `account_ids` replacing the earlier ones on that channel.
    pub fn subscribe_user_stats(self, account_ids: Vec<i64>) -> (res: Self)
        ensures
            res == (WsSubscriptions { user_stats_ids: account_ids, ..self }),
    {
        let mut s = self;
        s.user_stats_ids = account_ids;
        s
    }

    /// The same subscriptions, plus the orders of `account_id` in `market_id`.
    pub fn subscribe_account_orders(self, market_id: i64, account_id: i64) -> (res: Self)
        ensures
            res.account_orders_subs@ == self.account_orders_subs@.push(
                AccountOrdersSubscription { market_id, account_id },
            ),
            res == (WsSubscriptions { account_orders_subs: res.account_orders_subs, ..self }),
    {
        let mut s = self;
        s.account_orders_subs.push(AccountOrdersSubscription { market_id, account_id });
        s
    }

    /// The same subscriptions, plus the statistics of all markets.
    pub fn subscribe_market_stats_all(self) -> (res: Self)
        ensures
            res == (WsSubscriptions { market_stats_all: true, ..self }),
    {
        let mut s = self;
        s.market_stats_all = true;
        s
    }

    /// Whether at least one channel is subscribed.
    pub fn has_subscriptions(&self) -> (res: bool)
        ensures
            res == self.spec_has_subscriptions(),
    {
        !self.order_book_ids.is_empty() || !self.ticker_ids.is_empty()
            || !self.market_stats_ids.is_empty() || !self.account_ids.is_empty()
            || !self.account_all_positions_ids.is_empty() || !self.account_all_assets_ids.is_empty()
            || !self.account_spot_avg_entry_prices_ids.is_empty()
            || !self.account_all_trades_ids.is_empty() || !self.user_stats_ids.is_empty()
            || self.market_stats_all || !self.account_orders_subs.is_empty()
            || !self.account_all_orders_ids.is_empty()
    }

    /// The subscribe requests, in the order of [`WsSubscriptions::spec_messages`].
    pub fn subscription_messages(&self) -> (res: Vec<SubscriptionMessage>)
        ensures
            res@.map_values(|m: SubscriptionMessage| m@) == self.spec_messages(),
    {
        let none: Option<String> = None;
        let mut out: Vec<SubscriptionMessage> = Vec::new();
        proof {
            assert(out@.map_values(|m: SubscriptionMessage| m@) =~= Seq::<SubscriptionView>::empty());
        }
        push_channel_group(&mut out, &self.order_book_ids, "order_book", &none);
        push_channel_group(&mut out, &self.ticker_ids, "ticker", &none);
        push_channel_group(&mut out, &self.market_stats_ids, "market_stats", &none);
        push_channel_group(&mut out, &self.account_ids, "account_all", &none);
        push_channel_group(
            &mut out,
            &self.account_all_positions_ids,
            "account_all_positions",
            &self.auth_token,
        );
        push_channel_group(&mut out, &self.account_all_assets_ids, "account_all_assets", &self.auth_token);
        push_channel_group(
            &mut out,
            &self.account_spot_avg_entry_prices_ids,
            "account_spot_avg_entry_prices",
            &self.auth_token,
        );
        push_channel_group(&mut out, &self.account_all_trades_ids, "account_all_trades", &self.auth_token);
        push_channel_group(&mut out, &self.user_stats_ids, "user_stats", &self.auth_token);
        let ghost before_all = out@.map_values(|m: SubscriptionMessage| m@);
        if self.market_stats_all {
            let msg = SubscriptionMessage { channel: String::from_str("market_stats/all"), auth: None };
            out.push(msg);
            proof {
                assert(out@.map_values(|m: SubscriptionMessage| m@) =~= before_all + seq![msg@]);
            }
        } else {
            proof {
                assert(out@.map_values(|m: SubscriptionMessage| m@) =~= before_all + Seq::<SubscriptionView>::empty());
            }
        }
        let ghost before_orders = out@.map_values(|m: SubscriptionMessage| m@);
        let mut i: usize = 0;
        while i < self.account_orders_subs.len()
            invariant
                i <= self.account_orders_subs@.len(),
                out@.map_values(|m: SubscriptionMessage| m@) =~= before_orders + account_orders_group(
                    self.account_orders_subs@,
                    opt_text(self.auth_token),
                ).take(i as int),
            decreases self.account_orders_subs@.len() - i,
        {
            let sub = self.account_orders_subs[i];
            let mut channel = String::from_str("account_orders/");
            append_i64(&mut channel, sub.market_id);
            channel.append("/");
            append_i64(&mut channel, sub.account_id);
            proof {
                reveal_strlit("/");
                reveal_strlit("account_orders/");
                reveal_strlit("account_orders");
                assert(channel@ =~= channel_for("account_orders"@, sub.market_id) + seq!['/'] + int_text(
                    sub.account_id as int,
                ));
            }
            let msg = SubscriptionMessage { channel, auth: clone_token(&self.auth_token) };
            let ghost prev = out@;
            out.push(msg);
            i = i + 1;
            proof {
                assert(out@ =~= prev.push(msg));
                assert(out@.map_values(|m: SubscriptionMessage| m@) =~= prev.map_values(
                    |m: SubscriptionMessage| m@,
                ).push(msg@));
                assert(account_orders_group(self.account_orders_subs@, opt_text(self.auth_token)).take(
                    i as int,
                ) =~= account_orders_group(self.account_orders_subs@, opt_text(self.auth_token)).take(
                    i - 1,
                ).push(msg@));
            }
        }
        proof {
            assert(account_orders_group(self.account_orders_subs@, opt_text(self.auth_token)).take(
                i as int,
            ) =~= account_orders_group(self.account_orders_subs@, opt_text(self.auth_token)));
        }
        push_channel_group(&mut out, &self.account_all_orders_ids, "account_all_orders", &self.auth_token);
        proof {
            assert(out@.map_values(|m: SubscriptionMessage| m@) =~= self.spec_messages());
        }
        out
    }
}

/// The name of a channel: its text before the first `/`.
pub open spec fn channel_name(c: Seq<char>) -> Seq<char> {
    match find_char(c, '/') {
        Some(i) => c.take(i),
        None => c,
    }
}

/// The channels private to an account, which the exchange serves only with
/// the account's auth token.
pub open spec fn is_private_channel_name(n: Seq<char>) -> bool {
    ||| n == "account_all_positions"@
    ||| n == "account_all_assets"@
    ||| n == "account_spot_avg_entry_prices"@
    ||| n == "account_all_trades"@
    ||| n == "user_stats"@
    ||| n == "account_orders"@
    ||| n == "account_all_orders"@
}

/// Whether a request carries the token exactly when its channel is private.
pub open spec fn auth_fits(v: SubscriptionView, token: Option<Seq<char>>) -> bool {
    if is_private_channel_name(channel_name(v.channel)) {
        v.auth == token
    } else {
        v.auth is None
    }
}

pub open spec fn all_auth_fit(s: Seq<SubscriptionView>, token: Option<Seq<char>>) -> bool {
    forall|i: int| 0 <= i < s.len() ==> auth_fits(#[trigger] s[i], token)
}

proof fn lemma_all_auth_fit_add(a: Seq<SubscriptionView>, b: Seq<SubscriptionView>, token: Option<Seq<char>>)
    requires
        all_auth_fit(a, token),
        all_auth_fit(b, token),
    ensures
        all_auth_fit(a + b, token),
{
    assert forall|i: int| 0 <= i < (a + b).len() implies auth_fits(#[trigger] (a + b)[i], token) by {
        if i < a.len() {
            assert((a + b)[i] == a[i]);
        } else {
            assert((a + b)[i] == b[i - a.len()]);
        }
    }
}

proof fn lemma_channel_name_of(name: Seq<char>, rest: Seq<char>)
    requires
        plain_channel_name(name),
    ensures
        channel_name(name + seq!['/'] + rest) == name,
{
    let c = name + seq!['/'] + rest;
    lemma_find_char_at(c, '/', name.len() as int);
    assert(c.take(name.len() as int) =~= name);
}

proof fn lemma_group_auth_fits(ids: Seq<i64>, name: Seq<char>, auth: Option<Seq<char>>, token: Option<Seq<char>>)
    requires
        plain_channel_name(name),
        is_private_channel_name(name) ==> auth == token,
        !is_private_channel_name(name) ==> auth is None,
    ensures
        all_auth_fit(channel_group(ids, name, auth), token),
{
    let g = channel_group(ids, name, auth);
    assert forall|i: int| 0 <= i < g.len() implies auth_fits(#[trigger] g[i], token) by {
        lemma_channel_name_of(name, int_text(ids[i] as int));
    }
}

proof fn lemma_account_orders_auth_fits(subs: Seq<AccountOrdersSubscription>, token: Option<Seq<char>>)
    ensures
        all_auth_fit(account_orders_group(subs, token), token),
{
    reveal_strlit("account_orders");
    let name = "account_orders"@;
    let g = account_orders_group(subs, token);
    assert forall|i: int| 0 <= i < g.len() implies auth_fits(#[trigger] g[i], token) by {
        let rest = int_text(subs[i].market_id as int) + seq!['/'] + int_text(subs[i].account_id as int);
        assert(g[i].channel =~= name + seq!['/'] + rest);
        lemma_channel_name_of(name, rest);
    }
}

/// The names of the channels the client subscribes to, and whether each is
/// private: what [`lemma_subscription_auth`] rests on.
proof fn lemma_channel_names()
    ensures
        plain_channel_name("order_book"@) && !is_private_channel_name("order_book"@),
        plain_channel_name("ticker"@) && !is_private_channel_name("ticker"@),
        plain_channel_name("market_stats"@) && !is_private_channel_name("market_stats"@),
        plain_channel_name("account_all"@) && !is_private_channel_name("account_all"@),
        plain_channel_name("account_all_positions"@) && is_private_channel_name("account_all_positions"@),
        plain_channel_name("account_all_assets"@) && is_private_channel_name("account_all_assets"@),
        plain_channel_name("account_spot_avg_entry_prices"@) && is_private_channel_name(
            "account_spot_avg_entry_prices"@,
        ),
        plain_channel_name("account_all_trades"@) && is_private_channel_name("account_all_trades"@),
        plain_channel_name("user_stats"@) && is_private_channel_name("user_stats"@),
        plain_channel_name("account_all_orders"@) && is_private_channel_name("account_all_orders"@),
{
    reveal_strlit("order_book");
    reveal_strlit("ticker");
    reveal_strlit("market_stats");
    reveal_strlit("account_all");
    reveal_strlit("account_all_positions");
    reveal_strlit("account_all_assets");
    reveal_strlit("account_spot_avg_entry_prices");
    reveal_strlit("account_all_trades");
    reveal_strlit("user_stats");
    reveal_strlit("account_orders");
    reveal_strlit("account_all_orders");
    assert("order_book"@[0] != "user_stats"@[0]);
    assert("ticker"@.len() == 6);
    assert("market_stats"@[0] != "account_orders"@[0]);
    assert("account_all"@.len() == 11);
}

/// Every subscribe request on a channel private to an account (positions,
/// assets, spot entry prices, trades, user stats, account orders, all
/// orders) carries the client's auth token, and no request on a public
/// channel (order books, tickers, market stats, account summaries) carries
/// one.
pub proof fn lemma_subscription_auth(subs: WsSubscriptions)
    ensures
        forall|i: int|
            0 <= i < subs.spec_messages().len() && is_private_channel_name(
                channel_name(#[trigger] subs.spec_messages()[i].channel),
            ) ==> subs.spec_messages()[i].auth == opt_text(subs.auth_token),
        forall|i: int|
            0 <= i < subs.spec_messages().len() && !is_private_channel_name(
                channel_name(#[trigger] subs.spec_messages()[i].channel),
            ) ==> subs.spec_messages()[i].auth is None,
{
    let tok = opt_text(subs.auth_token);
    lemma_channel_names();
    reveal_strlit("market_stats/all");
    reveal_strlit("market_stats");
    let g1 = channel_group(subs.order_book_ids@, "order_book"@, None);
    let g2 = channel_group(subs.ticker_ids@, "ticker"@, None);
    let g3 = channel_group(subs.market_stats_ids@, "market_stats"@, None);
    let g4 = channel_group(subs.account_ids@, "account_all"@, None);
    let g5 = channel_group(subs.account_all_positions_ids@, "account_all_positions"@, tok);
    let g6 = channel_group(subs.account_all_assets_ids@, "account_all_assets"@, tok);
    let g7 = channel_group(
        subs.account_spot_avg_entry_prices_ids@,
        "account_spot_avg_entry_prices"@,
        tok,
    );
    let g8 = channel_group(subs.account_all_trades_ids@, "account_all_trades"@, tok);
    let g9 = channel_group(subs.user_stats_ids@, "user_stats"@, tok);
    let g10: Seq<SubscriptionView> = if subs.market_stats_all {
        seq![SubscriptionView { channel: "market_stats/all"@, auth: None }]
    } else {
        Seq::empty()
    };
    let g11 = account_orders_group(subs.account_orders_subs@, tok);
    let g12 = channel_group(subs.account_all_orders_ids@, "account_all_orders"@, tok);
    lemma_group_auth_fits(subs.order_book_ids@, "order_book"@, None, tok);
    lemma_group_auth_fits(subs.ticker_ids@, "ticker"@, None, tok);
    lemma_group_auth_fits(subs.market_stats_ids@, "market_stats"@, None, tok);
    lemma_group_auth_fits(subs.account_ids@, "account_all"@, None, tok);
    lemma_group_auth_fits(subs.account_all_positions_ids@, "account_all_positions"@, tok, tok);
    lemma_group_auth_fits(subs.account_all_assets_ids@, "account_all_assets"@, tok, tok);
    lemma_group_auth_fits(
        subs.account_spot_avg_entry_prices_ids@,
        "account_spot_avg_entry_prices"@,
        tok,
        tok,
    );
    lemma_group_auth_fits(subs.account_all_trades_ids@, "account_all_trades"@, tok, tok);
    lemma_group_auth_fits(subs.user_stats_ids@, "user_stats"@, tok, tok);
    lemma_account_orders_auth_fits(subs.account_orders_subs@, tok);
    lemma_group_auth_fits(subs.account_all_orders_ids@, "account_all_orders"@, tok, tok);
    if subs.market_stats_all {
        assert("market_stats/all"@ =~= "market_stats"@ + seq!['/'] + seq!['a', 'l', 'l']);
        lemma_channel_name_of("market_stats"@, seq!['a', 'l', 'l']);
        assert(auth_fits(g10[0], tok));
    }
    assert(all_auth_fit(g10, tok));
    lemma_all_auth_fit_add(g1, g2, tok);
    lemma_all_auth_fit_add(g1 + g2, g3, tok);
    lemma_all_auth_fit_add(g1 + g2 + g3, g4, tok);
    lemma_all_auth_fit_add(g1 + g2 + g3 + g4, g5, tok);
    lemma_all_auth_fit_add(g1 + g2 + g3 + g4 + g5, g6, tok);
    lemma_all_auth_fit_add(g1 + g2 + g3 + g4 + g5 + g6, g7, tok);
    lemma_all_auth_fit_add(g1 + g2 + g3 + g4 + g5 + g6 + g7, g8, tok);
    lemma_all_auth_fit_add(g1 + g2 + g3 + g4 + g5 + g6 + g7 + g8, g9, tok);
    lemma_all_auth_fit_add(g1 + g2 + g3 + g4 + g5 + g6 + g7 + g8 + g9, g10, tok);
    lemma_all_auth_fit_add(g1 + g2 + g3 + g4 + g5 + g6 + g7 + g8 + g9 + g10, g11, tok);
    lemma_all_auth_fit_add(g1 + g2 + g3 + g4 + g5 + g6 + g7 + g8 + g9 + g10 + g11, g12, tok);
    let all = subs.spec_messages();
    assert(all == g1 + g2 + g3 + g4 + g5 + g6 + g7 + g8 + g9 + g10 + g11 + g12);
    assert forall|i: int| 0 <= i < all.len() implies auth_fits(#[trigger] all[i], tok) by {}
}

/// The client sends one request per subscribed id or market/account pair,
/// plus one for `market_stats/all` when asked for: nothing is dropped and
/// nothing is sent twice.
pub proof fn lemma_subscription_count(subs: WsSubscriptions)
    ensures
        subs.spec_messages().len() == subs.order_book_ids@.len() + subs.ticker_ids@.len()
            + subs.market_stats_ids@.len() + subs.account_ids@.len()
            + subs.account_all_positions_ids@.len() + subs.account_all_assets_ids@.len()
            + subs.account_spot_avg_entry_prices_ids@.len() + subs.account_all_trades_ids@.len()
            + subs.user_stats_ids@.len() + (if subs.market_stats_all {
            1int
        } else {
            0int
        }) + subs.account_orders_subs@.len() + subs.account_all_orders_ids@.len(),
{
}

/// Whether `msgs` holds a request on `channel` with `auth`.
pub open spec fn has_request(msgs: Seq<SubscriptionView>, channel: Seq<char>, auth: Option<Seq<char>>) -> bool {
    exists|i: int| 0 <= i < msgs.len() && msgs[i].channel == channel && msgs[i].auth == auth
}

proof fn lemma_group_requests(
    pre: Seq<SubscriptionView>,
    ids: Seq<i64>,
    name: Seq<char>,
    auth: Option<Seq<char>>,
    post: Seq<SubscriptionView>,
)
    ensures
        forall|k: int|
            0 <= k < ids.len() ==> has_request(
                pre + channel_group(ids, name, auth) + post,
                channel_for(name, #[trigger] ids[k]),
                auth,
            ),
{
    let g = channel_group(ids, name, auth);
    let all = pre + g + post;
    assert forall|k: int| 0 <= k < ids.len() implies has_request(
        all,
        channel_for(name, #[trigger] ids[k]),
        auth,
    ) by {
        assert(all[pre.len() + k] == g[k]);
    }
}

proof fn lemma_requests_order_book(subs: WsSubscriptions)
    ensures
        forall|k: int|
            0 <= k < subs.order_book_ids@.len() ==> has_request(
                subs.spec_messages(),
                channel_for("order_book"@, #[trigger] subs.order_book_ids@[k]),
                None,
            ),
{
    let tok = opt_text(subs.auth_token);
    let g1 = channel_group(subs.order_book_ids@, "order_book"@, None);
    let g2 = channel_group(subs.ticker_ids@, "ticker"@, None);
    let g3 = channel_group(subs.market_stats_ids@, "market_stats"@, None);
    let g4 = channel_group(subs.account_ids@, "account_all"@, None);
    let g5 = channel_group(subs.account_all_positions_ids@, "account_all_positions"@, tok);
    let g6 = channel_group(subs.account_all_assets_ids@, "account_all_assets"@, tok);
    let g7 = channel_group(
        subs.account_spot_avg_entry_prices_ids@,
        "account_spot_avg_entry_prices"@,
        tok,
    );
    let g8 = channel_group(subs.account_all_trades_ids@, "account_all_trades"@, tok);
    let g9 = channel_group(subs.user_stats_ids@, "user_stats"@, tok);
    let g10: Seq<SubscriptionView> = if subs.market_stats_all {
        seq![SubscriptionView { channel: "market_stats/all"@, auth: None }]
    } else {
        Seq::empty()
    };
    let g11 = account_orders_group(subs.account_orders_subs@, tok);
    let g12 = channel_group(subs.account_all_orders_ids@, "account_all_orders"@, tok);
    let all = subs.spec_messages();
    assert(all =~= (Seq::<SubscriptionView>::empty()) + g1 + (g2 + g3 + g4 + g5 + g6 + g7 + g8 + g9 + g10 + g11 + g12));
    lemma_group_requests(Seq::<SubscriptionView>::empty(), subs.order_book_ids@, "order_book"@, None, g2 + g3 + g4 + g5 + g6 + g7 + g8 + g9 + g10 + g11 + g12);
}

proof fn lemma_requests_ticker(subs: WsSubscriptions)
    ensures
        forall|k: int|
            0 <= k < subs.ticker_ids@.len() ==> has_request(
                subs.spec_messages(),
                channel_for("ticker"@, #[trigger] subs.ticker_ids@[k]),
                None,
            ),
{
    let tok = opt_text(subs.auth_token);
    let g1 = channel_group(subs.order_book_ids@, "order_book"@, None);
    let g2 = channel_group(subs.ticker_ids@, "ticker"@, None);
    let g3 = channel_group(subs.market_stats_ids@, "market_stats"@, None);
    let g4 = channel_group(subs.account_ids@, "account_all"@, None);
    let g5 = channel_group(subs.account_all_positions_ids@, "account_all_positions"@, tok);
    let g6 = channel_group(subs.account_all_assets_ids@, "account_all_assets"@, tok);
    let g7 = channel_group(
        subs.account_spot_avg_entry_prices_ids@,
        "account_spot_avg_entry_prices"@,
        tok,
    );
    let g8 = channel_group(subs.account_all_trades_ids@, "account_all_trades"@, tok);
    let g9 = channel_group(subs.user_stats_ids@, "user_stats"@, tok);
    let g10: Seq<SubscriptionView> = if subs.market_stats_all {
        seq![SubscriptionView { channel: "market_stats/all"@, auth: None }]
    } else {
        Seq::empty()
    };
    let g11 = account_orders_group(subs.account_orders_subs@, tok);
    let g12 = channel_group(subs.account_all_orders_ids@, "account_all_orders"@, tok);
    let all = subs.spec_messages();
    assert(all =~= (g1) + g2 + (g3 + g4 + g5 + g6 + g7 + g8 + g9 + g10 + g11 + g12));
    lemma_group_requests(g1, subs.ticker_ids@, "ticker"@, None, g3 + g4 + g5 + g6 + g7 + g8 + g9 + g10 + g11 + g12);
}

proof fn lemma_requests_market_stats(subs: WsSubscriptions)
    ensures
        forall|k: int|
            0 <= k < subs.market_stats_ids@.len() ==> has_request(
                subs.spec_messages(),
                channel_for("market_stats"@, #[trigger] subs.market_stats_ids@[k]),
                None,
            ),
{
    let tok = opt_text(subs.auth_token);
    let g1 = channel_group(subs.order_book_ids@, "order_book"@, None);
    let g2 = channel_group(subs.ticker_ids@, "ticker"@, None);
    let g3 = channel_group(subs.market_stats_ids@, "market_stats"@, None);
    let g4 = channel_group(subs.account_ids@, "account_all"@, None);
    let g5 = channel_group(subs.account_all_positions_ids@, "account_all_positions"@, tok);
    let g6 = channel_group(subs.account_all_assets_ids@, "account_all_assets"@, tok);
    let g7 = channel_group(
        subs.account_spot_avg_entry_prices_ids@,
        "account_spot_avg_entry_prices"@,
        tok,
    );
    let g8 = channel_group(subs.account_all_trades_ids@, "account_all_trades"@, tok);
    let g9 = channel_group(subs.user_stats_ids@, "user_stats"@, tok);
    let g10: Seq<SubscriptionView> = if subs.market_stats_all {
        seq![SubscriptionView { channel: "market_stats/all"@, auth: None }]
    } else {
        Seq::empty()
    };
    let g11 = account_orders_group(subs.account_orders_subs@, tok);
    let g12 = channel_group(subs.account_all_orders_ids@, "account_all_orders"@, tok);
    let all = subs.spec_messages();
    assert(all =~= (g1 + g2) + g3 + (g4 + g5 + g6 + g7 + g8 + g9 + g10 + g11 + g12));
    lemma_group_requests(g1 + g2, subs.market_stats_ids@, "market_stats"@, None, g4 + g5 + g6 + g7 + g8 + g9 + g10 + g11 + g12);
}

proof fn lemma_requests_account_all(subs: WsSubscriptions)
    ensures
        forall|k: int|
            0 <= k < subs.account_ids@.len() ==> has_request(
                subs.spec_messages(),
                channel_for("account_all"@, #[trigger] subs.account_ids@[k]),
                None,
            ),
{
    let tok = opt_text(subs.auth_token);
    let g1 = channel_group(subs.order_book_ids@, "order_book"@, None);
    let g2 = channel_group(subs.ticker_ids@, "ticker"@, None);
    let g3 = channel_group(subs.market_stats_ids@, "market_stats"@, None);
    let g4 = channel_group(subs.account_ids@, "account_all"@, None);
    let g5 = channel_group(subs.account_all_positions_ids@, "account_all_positions"@, tok);
    let g6 = channel_group(subs.account_all_assets_ids@, "account_all_assets"@, tok);
    let g7 = channel_group(
        subs.account_spot_avg_entry_prices_ids@,
        "account_spot_avg_entry_prices"@,
        tok,
    );
    let g8 = channel_group(subs.account_all_trades_ids@, "account_all_trades"@, tok);
    let g9 = channel_group(subs.user_stats_ids@, "user_stats"@, tok);
    let g10: Seq<SubscriptionView> = if subs.market_stats_all {
        seq![SubscriptionView { channel: "market_stats/all"@, auth: None }]
    } else {
        Seq::empty()
    };
    let g11 = account_orders_group(subs.account_orders_subs@, tok);
    let g12 = channel_group(subs.account_all_orders_ids@, "account_all_orders"@, tok);
    let all = subs.spec_messages();
    assert(all =~= (g1 + g2 + g3) + g4 + (g5 + g6 + g7 + g8 + g9 + g10 + g11 + g12));
    lemma_group_requests(g1 + g2 + g3, subs.account_ids@, "account_all"@, None, g5 + g6 + g7 + g8 + g9 + g10 + g11 + g12);
}

proof fn lemma_requests_account_all_positions(subs: WsSubscriptions)
    ensures
        forall|k: int|
            0 <= k < subs.account_all_positions_ids@.len() ==> has_request(
                subs.spec_messages(),
                channel_for("account_all_positions"@, #[trigger] subs.account_all_positions_ids@[k]),
                opt_text(subs.auth_token),
            ),
{
    let tok = opt_text(subs.auth_token);
    let g1 = channel_group(subs.order_book_ids@, "order_book"@, None);
    let g2 = channel_group(subs.ticker_ids@, "ticker"@, None);
    let g3 = channel_group(subs.market_stats_ids@, "market_stats"@, None);
    let g4 = channel_group(subs.account_ids@, "account_all"@, None);
    let g5 = channel_group(subs.account_all_positions_ids@, "account_all_positions"@, tok);
    let g6 = channel_group(subs.account_all_assets_ids@, "account_all_assets"@, tok);
    let g7 = channel_group(
        subs.account_spot_avg_entry_prices_ids@,
        "account_spot_avg_entry_prices"@,
        tok,
    );
    let g8 = channel_group(subs.account_all_trades_ids@, "account_all_trades"@, tok);
    let g9 = channel_group(subs.user_stats_ids@, "user_stats"@, tok);
    let g10: Seq<SubscriptionView> = if subs.market_stats_all {
        seq![SubscriptionView { channel: "market_stats/all"@, auth: None }]
    } else {
        Seq::empty()
    };
    let g11 = account_orders_group(subs.account_orders_subs@, tok);
    let g12 = channel_group(subs.account_all_orders_ids@, "account_all_orders"@, tok);
    let all = subs.spec_messages();
    assert(all =~= (g1 + g2 + g3 + g4) + g5 + (g6 + g7 + g8 + g9 + g10 + g11 + g12));
    lemma_group_requests(g1 + g2 + g3 + g4, subs.account_all_positions_ids@, "account_all_positions"@, tok, g6 + g7 + g8 + g9 + g10 + g11 + g12);
}

proof fn lemma_requests_account_all_assets(subs: WsSubscriptions)
    ensures
        forall|k: int|
            0 <= k < subs.account_all_assets_ids@.len() ==> has_request(
                subs.spec_messages(),
                channel_for("account_all_assets"@, #[trigger] subs.account_all_assets_ids@[k]),
                opt_text(subs.auth_token),
            ),
{
    let tok = opt_text(subs.auth_token);
    let g1 = channel_group(subs.order_book_ids@, "order_book"@, None);
    let g2 = channel_group(subs.ticker_ids@, "ticker"@, None);
    let g3 = channel_group(subs.market_stats_ids@, "market_stats"@, None);
    let g4 = channel_group(subs.account_ids@, "account_all"@, None);
    let g5 = channel_group(subs.account_all_positions_ids@, "account_all_positions"@, tok);
    let g6 = channel_group(subs.account_all_assets_ids@, "account_all_assets"@, tok);
    let g7 = channel_group(
        subs.account_spot_avg_entry_prices_ids@,
        "account_spot_avg_entry_prices"@,
        tok,
    );
    let g8 = channel_group(subs.account_all_trades_ids@, "account_all_trades"@, tok);
    let g9 = channel_group(subs.user_stats_ids@, "user_stats"@, tok);
    let g10: Seq<SubscriptionView> = if subs.market_stats_all {
        seq![SubscriptionView { channel: "market_stats/all"@, auth: None }]
    } else {
        Seq::empty()
    };
    let g11 = account_orders_group(subs.account_orders_subs@, tok);
    let g12 = channel_group(subs.account_all_orders_ids@, "account_all_orders"@, tok);
    let all = subs.spec_messages();
    assert(all =~= (g1 + g2 + g3 + g4 + g5) + g6 + (g7 + g8 + g9 + g10 + g11 + g12));
    lemma_group_requests(g1 + g2 + g3 + g4 + g5, subs.account_all_assets_ids@, "account_all_assets"@, tok, g7 + g8 + g9 + g10 + g11 + g12);
}

proof fn lemma_requests_account_spot_avg_entry_prices(subs: WsSubscriptions)
    ensures
        forall|k: int|
            0 <= k < subs.account_spot_avg_entry_prices_ids@.len() ==> has_request(
                subs.spec_messages(),
                channel_for("account_spot_avg_entry_prices"@, #[trigger] subs.account_spot_avg_entry_prices_ids@[k]),
                opt_text(subs.auth_token),
            ),
{
    let tok = opt_text(subs.auth_token);
    let g1 = channel_group(subs.order_book_ids@, "order_book"@, None);
    let g2 = channel_group(subs.ticker_ids@, "ticker"@, None);
    let g3 = channel_group(subs.market_stats_ids@, "market_stats"@, None);
    let g4 = channel_group(subs.account_ids@, "account_all"@, None);
    let g5 = channel_group(subs.account_all_positions_ids@, "account_all_positions"@, tok);
    let g6 = channel_group(subs.account_all_assets_ids@, "account_all_assets"@, tok);
    let g7 = channel_group(
        subs.account_spot_avg_entry_prices_ids@,
        "account_spot_avg_entry_prices"@,
        tok,
    );
    let g8 = channel_group(subs.account_all_trades_ids@, "account_all_trades"@, tok);
    let g9 = channel_group(subs.user_stats_ids@, "user_stats"@, tok);
    let g10: Seq<SubscriptionView> = if subs.market_stats_all {
        seq![SubscriptionView { channel: "market_stats/all"@, auth: None }]
    } else {
        Seq::empty()
    };
    let g11 = account_orders_group(subs.account_orders_subs@, tok);
    let g12 = channel_group(subs.account_all_orders_ids@, "account_all_orders"@, tok);
    let all = subs.spec_messages();
    assert(all =~= (g1 + g2 + g3 + g4 + g5 + g6) + g7 + (g8 + g9 + g10 + g11 + g12));
    lemma_group_requests(g1 + g2 + g3 + g4 + g5 + g6, subs.account_spot_avg_entry_prices_ids@, "account_spot_avg_entry_prices"@, tok, g8 + g9 + g10 + g11 + g12);
}

proof fn lemma_requests_account_all_trades(subs: WsSubscriptions)
    ensures
        forall|k: int|
            0 <= k < subs.account_all_trades_ids@.len() ==> has_request(
                subs.spec_messages(),
                channel_for("account_all_trades"@, #[trigger] subs.account_all_trades_ids@[k]),
                opt_text(subs.auth_token),
            ),
{
    let tok = opt_text(subs.auth_token);
    let g1 = channel_group(subs.order_book_ids@, "order_book"@, None);
    let g2 = channel_group(subs.ticker_ids@, "ticker"@, None);
    let g3 = channel_group(subs.market_stats_ids@, "market_stats"@, None);
    let g4 = channel_group(subs.account_ids@, "account_all"@, None);
    let g5 = channel_group(subs.account_all_positions_ids@, "account_all_positions"@, tok);
    let g6 = channel_group(subs.account_all_assets_ids@, "account_all_assets"@, tok);
    let g7 = channel_group(
        subs.account_spot_avg_entry_prices_ids@,
        "account_spot_avg_entry_prices"@,
        tok,
    );
    let g8 = channel_group(subs.account_all_trades_ids@, "account_all_trades"@, tok);
    let g9 = channel_group(subs.user_stats_ids@, "user_stats"@, tok);
    let g10: Seq<SubscriptionView> = if subs.market_stats_all {
        seq![SubscriptionView { channel: "market_stats/all"@, auth: None }]
    } else {
        Seq::empty()
    };
    let g11 = account_orders_group(subs.account_orders_subs@, tok);
    let g12 = channel_group(subs.account_all_orders_ids@, "account_all_orders"@, tok);
    let all = subs.spec_messages();
    assert(all =~= (g1 + g2 + g3 + g4 + g5 + g6 + g7) + g8 + (g9 + g10 + g11 + g12));
    lemma_group_requests(g1 + g2 + g3 + g4 + g5 + g6 + g7, subs.account_all_trades_ids@, "account_all_trades"@, tok, g9 + g10 + g11 + g12);
}

proof fn lemma_requests_user_stats(subs: WsSubscriptions)
    ensures
        forall|k: int|
            0 <= k < subs.user_stats_ids@.len() ==> has_request(
                subs.spec_messages(),
                channel_for("user_stats"@, #[trigger] subs.user_stats_ids@[k]),
                opt_text(subs.auth_token),
            ),
{
    let tok = opt_text(subs.auth_token);
    let g1 = channel_group(subs.order_book_ids@, "order_book"@, None);
    let g2 = channel_group(subs.ticker_ids@, "ticker"@, None);
    let g3 = channel_group(subs.market_stats_ids@, "market_stats"@, None);
    let g4 = channel_group(subs.account_ids@, "account_all"@, None);
    let g5 = channel_group(subs.account_all_positions_ids@, "account_all_positions"@, tok);
    let g6 = channel_group(subs.account_all_assets_ids@, "account_all_assets"@, tok);
    let g7 = channel_group(
        subs.account_spot_avg_entry_prices_ids@,
        "account_spot_avg_entry_prices"@,
        tok,
    );
    let g8 = channel_group(subs.account_all_trades_ids@, "account_all_trades"@, tok);
    let g9 = channel_group(subs.user_stats_ids@, "user_stats"@, tok);
    let g10: Seq<SubscriptionView> = if subs.market_stats_all {
        seq![SubscriptionView { channel: "market_stats/all"@, auth: None }]
    } else {
        Seq::empty()
    };
    let g11 = account_orders_group(subs.account_orders_subs@, tok);
    let g12 = channel_group(subs.account_all_orders_ids@, "account_all_orders"@, tok);
    let all = subs.spec_messages();
    assert(all =~= (g1 + g2 + g3 + g4 + g5 + g6 + g7 + g8) + g9 + (g10 + g11 + g12));
    lemma_group_requests(g1 + g2 + g3 + g4 + g5 + g6 + g7 + g8, subs.user_stats_ids@, "user_stats"@, tok, g10 + g11 + g12);
}

proof fn lemma_requests_account_all_orders(subs: WsSubscriptions)
    ensures
        forall|k: int|
            0 <= k < subs.account_all_orders_ids@.len() ==> has_request(
                subs.spec_messages(),
                channel_for("account_all_orders"@, #[trigger] subs.account_all_orders_ids@[k]),
                opt_text(subs.auth_token),
            ),
{
    let tok = opt_text(subs.auth_token);
    let g1 = channel_group(subs.order_book_ids@, "order_book"@, None);
    let g2 = channel_group(subs.ticker_ids@, "ticker"@, None);
    let g3 = channel_group(subs.market_stats_ids@, "market_stats"@, None);
    let g4 = channel_group(subs.account_ids@, "account_all"@, None);
    let g5 = channel_group(subs.account_all_positions_ids@, "account_all_positions"@, tok);
    let g6 = channel_group(subs.account_all_assets_ids@, "account_all_assets"@, tok);
    let g7 = channel_group(
        subs.account_spot_avg_entry_prices_ids@,
        "account_spot_avg_entry_prices"@,
        tok,
    );
    let g8 = channel_group(subs.account_all_trades_ids@, "account_all_trades"@, tok);
    let g9 = channel_group(subs.user_stats_ids@, "user_stats"@, tok);
    let g10: Seq<SubscriptionView> = if subs.market_stats_all {
        seq![SubscriptionView { channel: "market_stats/all"@, auth: None }]
    } else {
        Seq::empty()
    };
    let g11 = account_orders_group(subs.account_orders_subs@, tok);
    let g12 = channel_group(subs.account_all_orders_ids@, "account_all_orders"@, tok);
    let all = subs.spec_messages();
    assert(all =~= (g1 + g2 + g3 + g4 + g5 + g6 + g7 + g8 + g9 + g10 + g11) + g12 + (Seq::<SubscriptionView>::empty()));
    lemma_group_requests(g1 + g2 + g3 + g4 + g5 + g6 + g7 + g8 + g9 + g10 + g11, subs.account_all_orders_ids@, "account_all_orders"@, tok, Seq::<SubscriptionView>::empty());
}

proof fn lemma_requests_market_stats_all(subs: WsSubscriptions)
    ensures
        subs.market_stats_all ==> has_request(subs.spec_messages(), "market_stats/all"@, None),
{
    let tok = opt_text(subs.auth_token);
    let g1 = channel_group(subs.order_book_ids@, "order_book"@, None);
    let g2 = channel_group(subs.ticker_ids@, "ticker"@, None);
    let g3 = channel_group(subs.market_stats_ids@, "market_stats"@, None);
    let g4 = channel_group(subs.account_ids@, "account_all"@, None);
    let g5 = channel_group(subs.account_all_positions_ids@, "account_all_positions"@, tok);
    let g6 = channel_group(subs.account_all_assets_ids@, "account_all_assets"@, tok);
    let g7 = channel_group(
        subs.account_spot_avg_entry_prices_ids@,
        "account_spot_avg_entry_prices"@,
        tok,
    );
    let g8 = channel_group(subs.account_all_trades_ids@, "account_all_trades"@, tok);
    let g9 = channel_group(subs.user_stats_ids@, "user_stats"@, tok);
    let g10: Seq<SubscriptionView> = if subs.market_stats_all {
        seq![SubscriptionView { channel: "market_stats/all"@, auth: None }]
    } else {
        Seq::empty()
    };
    let g11 = account_orders_group(subs.account_orders_subs@, tok);
    let g12 = channel_group(subs.account_all_orders_ids@, "account_all_orders"@, tok);
    let all = subs.spec_messages();
    if subs.market_stats_all {
        assert(all =~= (g1 + g2 + g3 + g4 + g5 + g6 + g7 + g8 + g9) + g10 + (g11 + g12));
        let i = (g1 + g2 + g3 + g4 + g5 + g6 + g7 + g8 + g9).len() as int;
        assert(all[i] == g10[0]);
    }
}

proof fn lemma_requests_account_orders(subs: WsSubscriptions)
    ensures
        forall|k: int|
            0 <= k < subs.account_orders_subs@.len() ==> has_request(
                subs.spec_messages(),
                channel_for("account_orders"@, (#[trigger] subs.account_orders_subs@[k]).market_id)
                    + seq!['/'] + int_text(subs.account_orders_subs@[k].account_id as int),
                opt_text(subs.auth_token),
            ),
{
    let tok = opt_text(subs.auth_token);
    let g1 = channel_group(subs.order_book_ids@, "order_book"@, None);
    let g2 = channel_group(subs.ticker_ids@, "ticker"@, None);
    let g3 = channel_group(subs.market_stats_ids@, "market_stats"@, None);
    let g4 = channel_group(subs.account_ids@, "account_all"@, None);
    let g5 = channel_group(subs.account_all_positions_ids@, "account_all_positions"@, tok);
    let g6 = channel_group(subs.account_all_assets_ids@, "account_all_assets"@, tok);
    let g7 = channel_group(
        subs.account_spot_avg_entry_prices_ids@,
        "account_spot_avg_entry_prices"@,
        tok,
    );
    let g8 = channel_group(subs.account_all_trades_ids@, "account_all_trades"@, tok);
    let g9 = channel_group(subs.user_stats_ids@, "user_stats"@, tok);
    let g10: Seq<SubscriptionView> = if subs.market_stats_all {
        seq![SubscriptionView { channel: "market_stats/all"@, auth: None }]
    } else {
        Seq::empty()
    };
    let g11 = account_orders_group(subs.account_orders_subs@, tok);
    let g12 = channel_group(subs.account_all_orders_ids@, "account_all_orders"@, tok);
    let all = subs.spec_messages();
    assert(all =~= (g1 + g2 + g3 + g4 + g5 + g6 + g7 + g8 + g9 + g10) + g11 + (g12));
    assert forall|k: int| 0 <= k < subs.account_orders_subs@.len() implies has_request(
        all,
        channel_for("account_orders"@, (#[trigger] subs.account_orders_subs@[k]).market_id) + seq!['/']
            + int_text(subs.account_orders_subs@[k].account_id as int),
        tok,
    ) by {
        let i = (g1 + g2 + g3 + g4 + g5 + g6 + g7 + g8 + g9 + g10).len() + k;
        assert(all[i] == g11[k]);
    }
}

/// Every subscribed id, market/account pair and `market_stats/all` gets its
/// request: on the channel named for it, with the auth token exactly when
/// the channel is private to an account.
pub proof fn lemma_subscription_requests(subs: WsSubscriptions)
    ensures
        forall|k: int|
            0 <= k < subs.order_book_ids@.len() ==> has_request(
                subs.spec_messages(),
                channel_for("order_book"@, #[trigger] subs.order_book_ids@[k]),
                None,
            ),
        forall|k: int|
            0 <= k < subs.ticker_ids@.len() ==> has_request(
                subs.spec_messages(),
                channel_for("ticker"@, #[trigger] subs.ticker_ids@[k]),
                None,
            ),
        forall|k: int|
            0 <= k < subs.market_stats_ids@.len() ==> has_request(
                subs.spec_messages(),
                channel_for("market_stats"@, #[trigger] subs.market_stats_ids@[k]),
                None,
            ),
        forall|k: int|
            0 <= k < subs.account_ids@.len() ==> has_request(
                subs.spec_messages(),
                channel_for("account_all"@, #[trigger] subs.account_ids@[k]),
                None,
            ),
        forall|k: int|
            0 <= k < subs.account_all_positions_ids@.len() ==> has_request(
                subs.spec_messages(),
                channel_for("account_all_positions"@, #[trigger] subs.account_all_positions_ids@[k]),
                opt_text(subs.auth_token),
            ),
        forall|k: int|
            0 <= k < subs.account_all_assets_ids@.len() ==> has_request(
                subs.spec_messages(),
                channel_for("account_all_assets"@, #[trigger] subs.account_all_assets_ids@[k]),
                opt_text(subs.auth_token),
            ),
        forall|k: int|
            0 <= k < subs.account_spot_avg_entry_prices_ids@.len() ==> has_request(
                subs.spec_messages(),
                channel_for("account_spot_avg_entry_prices"@, #[trigger] subs.account_spot_avg_entry_prices_ids@[k]),
                opt_text(subs.auth_token),
            ),
        forall|k: int|
            0 <= k < subs.account_all_trades_ids@.len() ==> has_request(
                subs.spec_messages(),
                channel_for("account_all_trades"@, #[trigger] subs.account_all_trades_ids@[k]),
                opt_text(subs.auth_token),
            ),
        forall|k: int|
            0 <= k < subs.user_stats_ids@.len() ==> has_request(
                subs.spec_messages(),
                channel_for("user_stats"@, #[trigger] subs.user_stats_ids@[k]),
                opt_text(subs.auth_token),
            ),
        forall|k: int|
            0 <= k < subs.account_all_orders_ids@.len() ==> has_request(
                subs.spec_messages(),
                channel_for("account_all_orders"@, #[trigger] subs.account_all_orders_ids@[k]),
                opt_text(subs.auth_token),
            ),
        subs.market_stats_all ==> has_request(subs.spec_messages(), "market_stats/all"@, None),
        forall|k: int|
            0 <= k < subs.account_orders_subs@.len() ==> has_request(
                subs.spec_messages(),
                channel_for("account_orders"@, (#[trigger] subs.account_orders_subs@[k]).market_id)
                    + seq!['/'] + int_text(subs.account_orders_subs@[k].account_id as int),
                opt_text(subs.auth_token),
            ),
{
    lemma_requests_order_book(subs);
    lemma_requests_ticker(subs);
    lemma_requests_market_stats(subs);
    lemma_requests_account_all(subs);
    lemma_requests_account_all_positions(subs);
    lemma_requests_account_all_assets(subs);
    lemma_requests_account_spot_avg_entry_prices(subs);
    lemma_requests_account_all_trades(subs);
    lemma_requests_user_stats(subs);
    lemma_requests_account_all_orders(subs);
    lemma_requests_market_stats_all(subs);
    lemma_requests_account_orders(subs);
}

} // verus!
