//! The REST interface: which request each operation makes, and how the
//! status of an answer is judged.
//!
//! A `RESTClient` holds the settings of a client. Each operation gives the
//! `Request` that asks for it: the complete address, the credential that
//! goes into the `Authorization: Bearer` header, and the caller's query
//! parameters. Sending the request and decoding the answer is the caller's
//! part.

use crate::text::{decimal, first_present, pick_first, push_decimal};
use crate::types::TickType;
use core::time::Duration;
use std::collections::HashMap;
use vstd::prelude::*;
use vstd::string::*;

verus! {

/// The address of the service, unless `POLYGON_API_URL` names another.
pub const DEFAULT_API_URL: &'static str = "https://api.polygon.io";

/// One HTTP GET, ready to be sent.
pub struct Request<'a> {
    /// The address: the client's `api_url` followed by the operation's path.
    pub url: String,
    /// The credential for the `Authorization: Bearer` header.
    pub auth_key: String,
    /// The caller's query parameters, as they were given.
    pub query_params: &'a HashMap<&'a str, &'a str>,
}

/// A request as plain values.
pub struct RequestView<'a> {
    pub url: Seq<char>,
    pub auth_key: Seq<char>,
    pub query_params: &'a HashMap<&'a str, &'a str>,
}

impl<'a> View for Request<'a> {
    type V = RequestView<'a>;

    open spec fn view(&self) -> RequestView<'a> {
        RequestView {
            url: self.url@,
            auth_key: self.auth_key@,
            query_params: self.query_params,
        }
    }
}

/// The answer's status was not 200: the answer is not decoded.
#[derive(Clone, Copy, Debug, PartialEq, Eq, Structural)]
pub struct StatusError {
    /// The status code of the answer.
    pub status: u16,
}

/// Judges an answer by its status code: only 200 is taken for success, and
/// every other code is reported with its number.
pub fn check_status(status: u16) -> (verdict: Result<(), StatusError>)
    ensures
        verdict == if status == 200 {
            Ok::<(), StatusError>(())
        } else {
            Err::<(), StatusError>(StatusError { status })
        },
{
    if status == 200 {
        Ok(())
    } else {
        Err(StatusError { status })
    }
}

/// The path of the aggregate bars of `ticker` between `from` and `to`, in
/// windows of `multiplier` times `timespan`. Stocks, currency pairs and
/// cryptocurrencies share it; the multiplier is written in decimal.
pub open spec fn aggregates_path(
    ticker: Seq<char>,
    multiplier: nat,
    timespan: Seq<char>,
    from: Seq<char>,
    to: Seq<char>,
) -> Seq<char> {
    "/v2/aggs/ticker/"@ + ticker + "/range/"@ + decimal(multiplier) + "/"@ + timespan + "/"@ + from
        + "/"@ + to
}

/// The path of the previous day's bar of `ticker`.
pub open spec fn previous_close_path(ticker: Seq<char>) -> Seq<char> {
    "/v2/aggs/ticker/"@ + ticker + "/prev"@
}

/// Writes out the path of the aggregate bars of `ticker`.
pub fn aggregates_uri(ticker: &str, multiplier: u32, timespan: &str, from: &str, to: &str) -> (uri:
    String)
    ensures
        uri@ == aggregates_path(ticker@, multiplier as nat, timespan@, from@, to@),
{
    let mut uri = String::from_str("/v2/aggs/ticker/");
    uri.append(ticker);
    uri.append("/range/");
    push_decimal(&mut uri, multiplier);
    uri.append("/");
    uri.append(timespan);
    uri.append("/");
    uri.append(from);
    uri.append("/");
    uri.append(to);
    uri
}

/// Writes out the path of the previous day's bar of `ticker`.
pub fn previous_close_uri(ticker: &str) -> (uri: String)
    ensures
        uri@ == previous_close_path(ticker@),
{
    let mut uri = String::from_str("/v2/aggs/ticker/");
    uri.append(ticker);
    uri.append("/prev");
    uri
}

/// The settings of a REST client.
pub struct RESTClient {
    /// The API key to use for requests.
    pub auth_key: String,
    /// The API URL to use for requests.
    pub api_url: String,
    /// How long to wait for an answer, if there is a limit.
    pub timeout: Option<Duration>,
}

impl RESTClient {
    /// The request that this client makes for `path`.
    pub open spec fn get<'a>(
        &self,
        path: Seq<char>,
        query_params: &'a HashMap<&'a str, &'a str>,
    ) -> RequestView<'a> {
        RequestView { url: self.api_url@ + path, auth_key: self.auth_key@, query_params }
    }

    /// Returns the settings of a new REST client.
    ///
    /// The API key is `auth_key` if it is given, else `env_auth_key`, the
    /// value of the `POLYGON_AUTH_KEY` environment variable. The API URL is
    /// `env_api_url`, the value of `POLYGON_API_URL`, if that is set, else
    /// `DEFAULT_API_URL`. One of the two keys must be there.
    pub fn new(
        auth_key: Option<&str>,
        timeout: Option<Duration>,
        env_api_url: Option<&str>,
        env_auth_key: Option<&str>,
    ) -> (client: RESTClient)
        requires
            auth_key is Some || env_auth_key is Some,
        ensures
            Some(client.auth_key@) == first_present(auth_key, env_auth_key),
            Some(client.api_url@) == first_present(env_api_url, Some(DEFAULT_API_URL)),
            client.timeout == timeout,
    {
        let api_url = pick_first(env_api_url, Some(DEFAULT_API_URL)).unwrap();
        let auth_key = pick_first(auth_key, env_auth_key).unwrap();
        RESTClient { auth_key, api_url, timeout }
    }

    /// The request for the path `uri` below the client's API URL.
    pub fn send_request<'a>(
        &self,
        uri: &str,
        query_params: &'a HashMap<&'a str, &'a str>,
    ) -> (request: Request<'a>)
        ensures
            request@ == self.get(uri@, query_params),
    {
        let mut url = self.api_url.clone();
        url.append(uri);
        Request { url, auth_key: self.auth_key.clone(), query_params }
    }

    /// Lists the ticker symbols that the service knows. Path:
    /// `/v3/reference/tickers`.
    pub fn reference_tickers<'a>(
        &self,
        query_params: &'a HashMap<&'a str, &'a str>,
    ) -> (request: Request<'a>)
        ensures
            request@ == self.get("/v3/reference/tickers"@, query_params),
    {
        self.send_request("/v3/reference/tickers", query_params)
    }

    /// Maps the ticker types to their descriptive names. Path:
    /// `/v2/reference/types`.
    pub fn reference_ticker_types<'a>(
        &self,
        query_params: &'a HashMap<&'a str, &'a str>,
    ) -> (request: Request<'a>)
        ensures
            request@ == self.get("/v2/reference/types"@, query_params),
    {
        self.send_request("/v2/reference/types", query_params)
    }

    /// Details of the company or entity behind a ticker symbol. Path:
    /// `/v1/meta/symbols/{stocks_ticker}/company`.
    pub fn reference_ticker_details<'a>(
        &self,
        stocks_ticker: &str,
        query_params: &'a HashMap<&'a str, &'a str>,
    ) -> (request: Request<'a>)
        ensures
            request@ == self.get("/v1/meta/symbols/"@ + stocks_ticker@ + "/company"@, query_params),
    {
        let mut uri = String::from_str("/v1/meta/symbols/");
        uri.append(stocks_ticker);
        uri.append("/company");
        self.send_request(uri.as_str(), query_params)
    }

    /// Details of the company or entity behind a ticker symbol, in the
    /// experimental form. Path: `/vX/reference/tickers/{stocks_ticker}`.
    pub fn reference_ticker_details_vx<'a>(
        &self,
        stocks_ticker: &str,
        query_params: &'a HashMap<&'a str, &'a str>,
    ) -> (request: Request<'a>)
        ensures
            request@ == self.get("/vX/reference/tickers/"@ + stocks_ticker@, query_params),
    {
        let mut uri = String::from_str("/vX/reference/tickers/");
        uri.append(stocks_ticker);
        self.send_request(uri.as_str(), query_params)
    }

    /// The most recent news articles on a ticker symbol. Path:
    /// `/v2/reference/news`.
    pub fn reference_ticker_news<'a>(
        &self,
        query_params: &'a HashMap<&'a str, &'a str>,
    ) -> (request: Request<'a>)
        ensures
            request@ == self.get("/v2/reference/news"@, query_params),
    {
        self.send_request("/v2/reference/news", query_params)
    }

    /// Lists the markets that the service covers. Path:
    /// `/v2/reference/markets`.
    pub fn reference_markets<'a>(
        &self,
        query_params: &'a HashMap<&'a str, &'a str>,
    ) -> (request: Request<'a>)
        ensures
            request@ == self.get("/v2/reference/markets"@, query_params),
    {
        self.send_request("/v2/reference/markets", query_params)
    }

    /// Lists the locales that the service covers. Path:
    /// `/v2/reference/locales`.
    pub fn reference_locales<'a>(
        &self,
        query_params: &'a HashMap<&'a str, &'a str>,
    ) -> (request: Request<'a>)
        ensures
            request@ == self.get("/v2/reference/locales"@, query_params),
    {
        self.send_request("/v2/reference/locales", query_params)
    }

    /// The historical stock splits of a ticker symbol. Path:
    /// `/v2/reference/splits/{stocks_ticker}`.
    pub fn reference_stock_splits<'a>(
        &self,
        stocks_ticker: &str,
        query_params: &'a HashMap<&'a str, &'a str>,
    ) -> (request: Request<'a>)
        ensures
            request@ == self.get("/v2/reference/splits/"@ + stocks_ticker@, query_params),
    {
        let mut uri = String::from_str("/v2/reference/splits/");
        uri.append(stocks_ticker);
        self.send_request(uri.as_str(), query_params)
    }

    /// The historical dividends of a stock. The ticker goes into the query
    /// part of the path, before the caller's own parameters. Path:
    /// `/v3/reference/dividends?ticker={stocks_ticker}`.
    pub fn reference_stock_dividends<'a>(
        &self,
        stocks_ticker: &str,
        query_params: &'a HashMap<&'a str, &'a str>,
    ) -> (request: Request<'a>)
        ensures
            request@ == self.get("/v3/reference/dividends?ticker="@ + stocks_ticker@, query_params),
    {
        let mut uri = String::from_str("/v3/reference/dividends?ticker=");
        uri.append(stocks_ticker);
        self.send_request(uri.as_str(), query_params)
    }

    /// The historical financial data of a stock ticker. Path:
    /// `/v2/reference/financials/{stocks_ticker}`.
    pub fn reference_stock_financials<'a>(
        &self,
        stocks_ticker: &str,
        query_params: &'a HashMap<&'a str, &'a str>,
    ) -> (request: Request<'a>)
        ensures
            request@ == self.get("/v2/reference/financials/"@ + stocks_ticker@, query_params),
    {
        let mut uri = String::from_str("/v2/reference/financials/");
        uri.append(stocks_ticker);
        self.send_request(uri.as_str(), query_params)
    }

    /// The historical financial data of a stock ticker, in the experimental
    /// form. Path: `/vX/reference/financials`.
    pub fn reference_stock_financials_vx<'a>(
        &self,
        query_params: &'a HashMap<&'a str, &'a str>,
    ) -> (request: Request<'a>)
        ensures
            request@ == self.get("/vX/reference/financials"@, query_params),
    {
        self.send_request("/vX/reference/financials", query_params)
    }

    /// The upcoming market holidays with their opening and closing times.
    /// Path: `/v1/marketstatus/upcoming`.
    pub fn reference_market_holidays<'a>(
        &self,
        query_params: &'a HashMap<&'a str, &'a str>,
    ) -> (request: Request<'a>)
        ensures
            request@ == self.get("/v1/marketstatus/upcoming"@, query_params),
    {
        self.send_request("/v1/marketstatus/upcoming", query_params)
    }

    /// The current trading status of the exchanges and of the markets
    /// overall. Path: `/v1/marketstatus/now`.
    pub fn reference_market_status<'a>(
        &self,
        query_params: &'a HashMap<&'a str, &'a str>,
    ) -> (request: Request<'a>)
        ensures
            request@ == self.get("/v1/marketstatus/now"@, query_params),
    {
        self.send_request("/v1/marketstatus/now", query_params)
    }

    /// Lists the stock exchanges that the service covers. Path:
    /// `/v1/meta/exchanges`.
    pub fn stock_equities_exchanges<'a>(
        &self,
        query_params: &'a HashMap<&'a str, &'a str>,
    ) -> (request: Request<'a>)
        ensures
            request@ == self.get("/v1/meta/exchanges"@, query_params),
    {
        self.send_request("/v1/meta/exchanges", query_params)
    }

    /// The numbers of the conditions on trades or on quotes, with their
    /// names. The kind of tick is spelled in lower case. Path:
    /// `/v1/meta/conditions/{tick_type}`.
    pub fn stock_equities_condition_mappings<'a>(
        &self,
        tick_type: TickType,
        query_params: &'a HashMap<&'a str, &'a str>,
    ) -> (request: Request<'a>)
        ensures
            request@ == self.get("/v1/meta/conditions/"@ + tick_type.lowercase(), query_params),
    {
        let mut uri = String::from_str("/v1/meta/conditions/");
        uri.append(tick_type.to_lowercase());
        self.send_request(uri.as_str(), query_params)
    }

    /// The most recent trade of a stock. Path:
    /// `/v2/last/trade/{stocks_ticker}`.
    pub fn stock_equities_historic_trades<'a>(
        &self,
        stocks_ticker: &str,
        query_params: &'a HashMap<&'a str, &'a str>,
    ) -> (request: Request<'a>)
        ensures
            request@ == self.get("/v2/last/trade/"@ + stocks_ticker@, query_params),
    {
        let mut uri = String::from_str("/v2/last/trade/");
        uri.append(stocks_ticker);
        self.send_request(uri.as_str(), query_params)
    }

    /// The most recent NBBO quote tick of a stock. Path:
    /// `/v2/last/nbbo/{stocks_ticker}`.
    pub fn stock_equities_last_quote_for_a_symbol<'a>(
        &self,
        stocks_ticker: &str,
        query_params: &'a HashMap<&'a str, &'a str>,
    ) -> (request: Request<'a>)
        ensures
            request@ == self.get("/v2/last/nbbo/"@ + stocks_ticker@, query_params),
    {
        let mut uri = String::from_str("/v2/last/nbbo/");
        uri.append(stocks_ticker);
        self.send_request(uri.as_str(), query_params)
    }

    /// The open, close and after-hours prices of a stock on one date. Path:
    /// `/v1/open-close/{stocks_ticker}/{date}`.
    pub fn stock_equities_daily_open_close<'a>(
        &self,
        stocks_ticker: &str,
        date: &str,
        query_params: &'a HashMap<&'a str, &'a str>,
    ) -> (request: Request<'a>)
        ensures
            request@ == self.get("/v1/open-close/"@ + stocks_ticker@ + "/"@ + date@, query_params),
    {
        let mut uri = String::from_str("/v1/open-close/");
        uri.append(stocks_ticker);
        uri.append("/");
        uri.append(date);
        self.send_request(uri.as_str(), query_params)
    }

    /// Aggregate bars of a stock over a range of dates, in windows of
    /// `multiplier` times `timespan`. Path: `/v2/aggs/ticker/{stocks_ticker}/
    /// range/{multiplier}/{timespan}/{from}/{to}`.
    pub fn stock_equities_aggregates<'a>(
        &self,
        stocks_ticker: &str,
        multiplier: u32,
        timespan: &str,
        from: &str,
        to: &str,
        query_params: &'a HashMap<&'a str, &'a str>,
    ) -> (request: Request<'a>)
        ensures
            request@ == self.get(
                aggregates_path(stocks_ticker@, multiplier as nat, timespan@, from@, to@),
                query_params,
            ),
    {
        let uri = aggregates_uri(stocks_ticker, multiplier, timespan, from, to);
        self.send_request(uri.as_str(), query_params)
    }

    /// The daily open, high, low and close of a whole market. Path:
    /// `/v2/aggs/grouped/locale/{locale}/market/{market}/{date}`.
    pub fn stock_equities_grouped_daily<'a>(
        &self,
        locale: &str,
        market: &str,
        date: &str,
        query_params: &'a HashMap<&'a str, &'a str>,
    ) -> (request: Request<'a>)
        ensures
            request@ == self.get(
                "/v2/aggs/grouped/locale/"@ + locale@ + "/market/"@ + market@ + "/"@ + date@,
                query_params,
            ),
    {
        let mut uri = String::from_str("/v2/aggs/grouped/locale/");
        uri.append(locale);
        uri.append("/market/");
        uri.append(market);
        uri.append("/");
        uri.append(date);
        self.send_request(uri.as_str(), query_params)
    }

    /// The previous day's open, high, low and close of a stock. Path:
    /// `/v2/aggs/ticker/{stocks_ticker}/prev`.
    pub fn stock_equities_previous_close<'a>(
        &self,
        stocks_ticker: &str,
        query_params: &'a HashMap<&'a str, &'a str>,
    ) -> (request: Request<'a>)
        ensures
            request@ == self.get(previous_close_path(stocks_ticker@), query_params),
    {
        let uri = previous_close_uri(stocks_ticker);
        self.send_request(uri.as_str(), query_params)
    }

    /// The current minute, day and previous day's aggregates, with the last
    /// trade and quote, of all traded stocks. Path:
    /// `/v2/snapshot/locale/{locale}/markets/stocks/tickers`.
    pub fn stock_equities_snapshot_all_tickers<'a>(
        &self,
        locale: &str,
        query_params: &'a HashMap<&'a str, &'a str>,
    ) -> (request: Request<'a>)
        ensures
            request@ == self.get(
                "/v2/snapshot/locale/"@ + locale@ + "/markets/stocks/tickers"@,
                query_params,
            ),
    {
        let mut uri = String::from_str("/v2/snapshot/locale/");
        uri.append(locale);
        uri.append("/markets/stocks/tickers");
        self.send_request(uri.as_str(), query_params)
    }

    /// The current minute, day and previous day's aggregates, with the last
    /// trade and quote, of one stock. Path:
    /// `/v2/snapshot/locale/{locale}/markets/stocks/tickers/{ticker}`.
    pub fn stock_equities_snapshot_single_ticker<'a>(
        &self,
        locale: &str,
        ticker: &str,
        query_params: &'a HashMap<&'a str, &'a str>,
    ) -> (request: Request<'a>)
        ensures
            request@ == self.get(
                "/v2/snapshot/locale/"@ + locale@ + "/markets/stocks/tickers/"@ + ticker@,
                query_params,
            ),
    {
        let mut uri = String::from_str("/v2/snapshot/locale/");
        uri.append(locale);
        uri.append("/markets/stocks/tickers/");
        uri.append(ticker);
        self.send_request(uri.as_str(), query_params)
    }

    /// The day's top gainers or losers among the stocks, as `direction` says.
    /// Path: `/v2/snapshot/locale/{locale}/markets/stocks/{direction}`.
    pub fn stock_equities_snapshot_gainers_losers<'a>(
        &self,
        locale: &str,
        direction: &str,
        query_params: &'a HashMap<&'a str, &'a str>,
    ) -> (request: Request<'a>)
        ensures
            request@ == self.get(
                "/v2/snapshot/locale/"@ + locale@ + "/markets/stocks/"@ + direction@,
                query_params,
            ),
    {
        let mut uri = String::from_str("/v2/snapshot/locale/");
        uri.append(locale);
        uri.append("/markets/stocks/");
        uri.append(direction);
        self.send_request(uri.as_str(), query_params)
    }

    /// Aggregate bars of a currency pair over a range of dates, in windows of
    /// `multiplier` times `timespan`. Path: `/v2/aggs/ticker/{forex_ticker}/r
    /// ange/{multiplier}/{timespan}/{from}/{to}`.
    pub fn forex_currencies_aggregates<'a>(
        &self,
        forex_ticker: &str,
        multiplier: u32,
        timespan: &str,
        from: &str,
        to: &str,
        query_params: &'a HashMap<&'a str, &'a str>,
    ) -> (request: Request<'a>)
        ensures
            request@ == self.get(
                aggregates_path(forex_ticker@, multiplier as nat, timespan@, from@, to@),
                query_params,
            ),
    {
        let uri = aggregates_uri(forex_ticker, multiplier, timespan, from, to);
        self.send_request(uri.as_str(), query_params)
    }

    /// The daily open, high, low and close of the whole forex market. Path:
    /// `/v2/aggs/grouped/locale/global/market/fx/{date}`.
    pub fn forex_currencies_grouped_daily<'a>(
        &self,
        date: &str,
        query_params: &'a HashMap<&'a str, &'a str>,
    ) -> (request: Request<'a>)
        ensures
            request@ == self.get(
                "/v2/aggs/grouped/locale/global/market/fx/"@ + date@,
                query_params,
            ),
    {
        let mut uri = String::from_str("/v2/aggs/grouped/locale/global/market/fx/");
        uri.append(date);
        self.send_request(uri.as_str(), query_params)
    }

    /// The previous day's open, high, low and close of a currency pair. Path:
    /// `/v2/aggs/ticker/{forex_ticker}/prev`.
    pub fn forex_currencies_previous_close<'a>(
        &self,
        forex_ticker: &str,
        query_params: &'a HashMap<&'a str, &'a str>,
    ) -> (request: Request<'a>)
        ensures
            request@ == self.get(previous_close_path(forex_ticker@), query_params),
    {
        let uri = previous_close_uri(forex_ticker);
        self.send_request(uri.as_str(), query_params)
    }

    /// Lists the cryptocurrency exchanges that the service covers. Path:
    /// `/v1/meta/crypto-exchanges`.
    pub fn crypto_crypto_exchanges<'a>(
        &self,
        query_params: &'a HashMap<&'a str, &'a str>,
    ) -> (request: Request<'a>)
        ensures
            request@ == self.get("/v1/meta/crypto-exchanges"@, query_params),
    {
        self.send_request("/v1/meta/crypto-exchanges", query_params)
    }

    /// The open and close prices of a cryptocurrency pair on one day. Path:
    /// `/v1/open-close/crypto/{from}/{to}/{date}`.
    pub fn crypto_daily_open_close<'a>(
        &self,
        from: &str,
        to: &str,
        date: &str,
        query_params: &'a HashMap<&'a str, &'a str>,
    ) -> (request: Request<'a>)
        ensures
            request@ == self.get(
                "/v1/open-close/crypto/"@ + from@ + "/"@ + to@ + "/"@ + date@,
                query_params,
            ),
    {
        let mut uri = String::from_str("/v1/open-close/crypto/");
        uri.append(from);
        uri.append("/");
        uri.append(to);
        uri.append("/");
        uri.append(date);
        self.send_request(uri.as_str(), query_params)
    }

    /// Aggregate bars of a cryptocurrency over a range of dates, in windows
    /// of `multiplier` times `timespan`. Path: `/v2/aggs/ticker/{crypto_ticke
    /// r}/range/{multiplier}/{timespan}/{from}/{to}`.
    pub fn crypto_aggregates<'a>(
        &self,
        crypto_ticker: &str,
        multiplier: u32,
        timespan: &str,
        from: &str,
        to: &str,
        query_params: &'a HashMap<&'a str, &'a str>,
    ) -> (request: Request<'a>)
        ensures
            request@ == self.get(
                aggregates_path(crypto_ticker@, multiplier as nat, timespan@, from@, to@),
                query_params,
            ),
    {
        let uri = aggregates_uri(crypto_ticker, multiplier, timespan, from, to);
        self.send_request(uri.as_str(), query_params)
    }

    /// The daily open, high, low and close of the whole crypto market. Path:
    /// `/v2/aggs/grouped/locale/global/market/crypto/{date}`.
    pub fn crypto_grouped_daily<'a>(
        &self,
        date: &str,
        query_params: &'a HashMap<&'a str, &'a str>,
    ) -> (request: Request<'a>)
        ensures
            request@ == self.get(
                "/v2/aggs/grouped/locale/global/market/crypto/"@ + date@,
                query_params,
            ),
    {
        let mut uri = String::from_str("/v2/aggs/grouped/locale/global/market/crypto/");
        uri.append(date);
        self.send_request(uri.as_str(), query_params)
    }

    /// The previous day's open, high, low and close of a cryptocurrency.
    /// Path: `/v2/aggs/ticker/{crypto_ticker}/prev`.
    pub fn crypto_previous_close<'a>(
        &self,
        crypto_ticker: &str,
        query_params: &'a HashMap<&'a str, &'a str>,
    ) -> (request: Request<'a>)
        ensures
            request@ == self.get(previous_close_path(crypto_ticker@), query_params),
    {
        let uri = previous_close_uri(crypto_ticker);
        self.send_request(uri.as_str(), query_params)
    }

}

} // verus!
