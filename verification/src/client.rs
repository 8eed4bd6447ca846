//! The REST interface with a client that is used up by its request.
//!
//! A `Client` gives one request and is gone: each operation takes the client
//! by value and moves its credential into the `Request`. It knows the
//! reference data, the stock operations and the list of crypto exchanges,
//! and asks for the snapshots of the United States only.

use crate::rest::{aggregates_path, aggregates_uri, previous_close_path, previous_close_uri};
use crate::rest::{Request, RequestView, DEFAULT_API_URL};
use crate::text::{first_present, pick_first};
use crate::types::TickType;
use std::collections::HashMap;
use vstd::prelude::*;
use vstd::string::*;

verus! {

/// The settings of a single-use REST client.
pub struct Client {
    /// The API key to use for the request.
    pub auth_key: String,
    /// The API URL to use for the request.
    pub api_url: String,
    /// How long to wait for an answer, if there is a limit.
    pub timeout: Option<u32>,
}

impl Client {
    /// The request that this client makes for `path`.
    pub open spec fn get<'a>(
        &self,
        path: Seq<char>,
        query_params: &'a HashMap<&'a str, &'a str>,
    ) -> RequestView<'a> {
        RequestView { url: self.api_url@ + path, auth_key: self.auth_key@, query_params }
    }

    /// Returns the settings of a new client.
    ///
    /// The API key is `auth_key` if it is given, else `env_auth_key`, the
    /// value of the `POLYGON_AUTH_KEY` environment variable. The API URL is
    /// `env_api_url`, the value of `POLYGON_API_URL`, if that is set, else
    /// `DEFAULT_API_URL`. One of the two keys must be there.
    pub fn new(
        auth_key: Option<&str>,
        timeout: Option<u32>,
        env_api_url: Option<&str>,
        env_auth_key: Option<&str>,
    ) -> (client: Client)
        requires
            auth_key is Some || env_auth_key is Some,
        ensures
            Some(client.auth_key@) == first_present(auth_key, env_auth_key),
            Some(client.api_url@) == first_present(env_api_url, Some(DEFAULT_API_URL)),
            client.timeout == timeout,
    {
        let api_url = pick_first(env_api_url, Some(DEFAULT_API_URL)).unwrap();
        let auth_key = pick_first(auth_key, env_auth_key).unwrap();
        Client { auth_key, api_url, timeout }
    }

    /// The request for the path `uri` below the client's API URL.
    pub fn send_request<'a>(
        self,
        uri: &str,
        query_params: &'a HashMap<&'a str, &'a str>,
    ) -> (request: Request<'a>)
        ensures
            request@ == self.get(uri@, query_params),
    {
        let mut url = self.api_url;
        url.append(uri);
        Request { url, auth_key: self.auth_key, query_params }
    }

    /// Lists the ticker symbols that the service knows. Path:
    /// `/v3/reference/tickers`.
    pub fn reference_tickers<'a>(
        self,
        query_params: &'a HashMap<&'a str, &'a str>,
    ) -> (request: Request<'a>)
        ensures
            request@ == self.get("/v3/reference/tickers"@, query_params),
    {
        self.send_request("/v3/reference/tickers", query_params)
    }

    /// Maps the ticker types to their descriptive names. Path:
    /// `/v2/reference/types`.
    pub fn reference_ticker_types<'a>(
        self,
        query_params: &'a HashMap<&'a str, &'a str>,
    ) -> (request: Request<'a>)
        ensures
            request@ == self.get("/v2/reference/types"@, query_params),
    {
        self.send_request("/v2/reference/types", query_params)
    }

    /// Details of the company or entity behind a ticker symbol. Path:
    /// `/v1/meta/symbols/{stocks_ticker}/company`.
    pub fn reference_ticker_details<'a>(
        self,
        stocks_ticker: &str,
        query_params: &'a HashMap<&'a str, &'a str>,
    ) -> (request: Request<'a>)
        ensures
            request@ == self.get("/v1/meta/symbols/"@ + stocks_ticker@ + "/company"@, query_params),
    {
        let mut uri = String::from_str("/v1/meta/symbols/");
        uri.append(stocks_ticker);
        uri.append("/company");
        self.send_request(uri.as_str(), query_params)
    }

    /// Details of the company or entity behind a ticker symbol, in the
    /// experimental form. Path: `/vX/reference/tickers/{stocks_ticker}`.
    pub fn reference_ticker_details_vx<'a>(
        self,
        stocks_ticker: &str,
        query_params: &'a HashMap<&'a str, &'a str>,
    ) -> (request: Request<'a>)
        ensures
            request@ == self.get("/vX/reference/tickers/"@ + stocks_ticker@, query_params),
    {
        let mut uri = String::from_str("/vX/reference/tickers/");
        uri.append(stocks_ticker);
        self.send_request(uri.as_str(), query_params)
    }

    /// The most recent news articles on a ticker symbol. Path:
    /// `/v2/reference/news`.
    pub fn reference_ticker_news<'a>(
        self,
        query_params: &'a HashMap<&'a str, &'a str>,
    ) -> (request: Request<'a>)
        ensures
            request@ == self.get("/v2/reference/news"@, query_params),
    {
        self.send_request("/v2/reference/news", query_params)
    }

    /// Lists the markets that the service covers. Path:
    /// `/v2/reference/markets`.
    pub fn reference_markets<'a>(
        self,
        query_params: &'a HashMap<&'a str, &'a str>,
    ) -> (request: Request<'a>)
        ensures
            request@ == self.get("/v2/reference/markets"@, query_params),
    {
        self.send_request("/v2/reference/markets", query_params)
    }

    /// Lists the locales that the service covers. Path:
    /// `/v2/reference/locales`.
    pub fn reference_locales<'a>(
        self,
        query_params: &'a HashMap<&'a str, &'a str>,
    ) -> (request: Request<'a>)
        ensures
            request@ == self.get("/v2/reference/locales"@, query_params),
    {
        self.send_request("/v2/reference/locales", query_params)
    }

    /// The historical stock splits of a ticker symbol. Path:
    /// `/v2/reference/splits/{stocks_ticker}`.
    pub fn reference_stock_splits<'a>(
        self,
        stocks_ticker: &str,
        query_params: &'a HashMap<&'a str, &'a str>,
    ) -> (request: Request<'a>)
        ensures
            request@ == self.get("/v2/reference/splits/"@ + stocks_ticker@, query_params),
    {
        let mut uri = String::from_str("/v2/reference/splits/");
        uri.append(stocks_ticker);
        self.send_request(uri.as_str(), query_params)
    }

    /// The historical dividends of a stock. Path:
    /// `/v2/reference/dividends/{stocks_ticker}`.
    pub fn reference_stock_dividends<'a>(
        self,
        stocks_ticker: &str,
        query_params: &'a HashMap<&'a str, &'a str>,
    ) -> (request: Request<'a>)
        ensures
            request@ == self.get("/v2/reference/dividends/"@ + stocks_ticker@, query_params),
    {
        let mut uri = String::from_str("/v2/reference/dividends/");
        uri.append(stocks_ticker);
        self.send_request(uri.as_str(), query_params)
    }

    /// The historical financial data of a stock ticker. Path:
    /// `/v2/reference/financials/{stocks_ticker}`.
    pub fn reference_stock_financials<'a>(
        self,
        stocks_ticker: &str,
        query_params: &'a HashMap<&'a str, &'a str>,
    ) -> (request: Request<'a>)
        ensures
            request@ == self.get("/v2/reference/financials/"@ + stocks_ticker@, query_params),
    {
        let mut uri = String::from_str("/v2/reference/financials/");
        uri.append(stocks_ticker);
        self.send_request(uri.as_str(), query_params)
    }

    /// The historical financial data of a stock ticker, in the experimental
    /// form. Path: `/vX/reference/financials`.
    pub fn reference_stock_financials_vx<'a>(
        self,
        query_params: &'a HashMap<&'a str, &'a str>,
    ) -> (request: Request<'a>)
        ensures
            request@ == self.get("/vX/reference/financials"@, query_params),
    {
        self.send_request("/vX/reference/financials", query_params)
    }

    /// The upcoming market holidays with their opening and closing times.
    /// Path: `/v1/marketstatus/upcoming`.
    pub fn reference_market_holidays<'a>(
        self,
        query_params: &'a HashMap<&'a str, &'a str>,
    ) -> (request: Request<'a>)
        ensures
            request@ == self.get("/v1/marketstatus/upcoming"@, query_params),
    {
        self.send_request("/v1/marketstatus/upcoming", query_params)
    }

    /// The current trading status of the exchanges and of the markets
    /// overall. Path: `/v1/marketstatus/now`.
    pub fn reference_market_status<'a>(
        self,
        query_params: &'a HashMap<&'a str, &'a str>,
    ) -> (request: Request<'a>)
        ensures
            request@ == self.get("/v1/marketstatus/now"@, query_params),
    {
        self.send_request("/v1/marketstatus/now", query_params)
    }

    /// Lists the stock exchanges that the service covers. Path:
    /// `/v1/meta/exchanges`.
    pub fn stock_equities_exchanges<'a>(
        self,
        query_params: &'a HashMap<&'a str, &'a str>,
    ) -> (request: Request<'a>)
        ensures
            request@ == self.get("/v1/meta/exchanges"@, query_params),
    {
        self.send_request("/v1/meta/exchanges", query_params)
    }

    /// The numbers of the conditions on trades or on quotes, with their
    /// names. The kind of tick is spelled in lower case. Path:
    /// `/v1/meta/conditions/{tick_type}`.
    pub fn stock_equities_condition_mappings<'a>(
        self,
        tick_type: TickType,
        query_params: &'a HashMap<&'a str, &'a str>,
    ) -> (request: Request<'a>)
        ensures
            request@ == self.get("/v1/meta/conditions/"@ + tick_type.lowercase(), query_params),
    {
        let mut uri = String::from_str("/v1/meta/conditions/");
        uri.append(tick_type.to_lowercase());
        self.send_request(uri.as_str(), query_params)
    }

    /// The most recent trade of a stock. Path:
    /// `/v2/last/trade/{stocks_ticker}`.
    pub fn stock_equities_historic_trades<'a>(
        self,
        stocks_ticker: &str,
        query_params: &'a HashMap<&'a str, &'a str>,
    ) -> (request: Request<'a>)
        ensures
            request@ == self.get("/v2/last/trade/"@ + stocks_ticker@, query_params),
    {
        let mut uri = String::from_str("/v2/last/trade/");
        uri.append(stocks_ticker);
        self.send_request(uri.as_str(), query_params)
    }

    /// The most recent NBBO quote tick of a stock. Path:
    /// `/v2/last/nbbo/{stocks_ticker}`.
    pub fn stock_equities_last_quote_for_a_symbol<'a>(
        self,
        stocks_ticker: &str,
        query_params: &'a HashMap<&'a str, &'a str>,
    ) -> (request: Request<'a>)
        ensures
            request@ == self.get("/v2/last/nbbo/"@ + stocks_ticker@, query_params),
    {
        let mut uri = String::from_str("/v2/last/nbbo/");
        uri.append(stocks_ticker);
        self.send_request(uri.as_str(), query_params)
    }

    /// The open, close and after-hours prices of a stock on one date. Path:
    /// `/v1/open-close/{stocks_ticker}/{date}`.
    pub fn stock_equities_daily_open_close<'a>(
        self,
        stocks_ticker: &str,
        date: &str,
        query_params: &'a HashMap<&'a str, &'a str>,
    ) -> (request: Request<'a>)
        ensures
            request@ == self.get("/v1/open-close/"@ + stocks_ticker@ + "/"@ + date@, query_params),
    {
        let mut uri = String::from_str("/v1/open-close/");
        uri.append(stocks_ticker);
        uri.append("/");
        uri.append(date);
        self.send_request(uri.as_str(), query_params)
    }

    /// Aggregate bars of a stock over a range of dates, in windows of
    /// `multiplier` times `timespan`. Path: `/v2/aggs/ticker/{stocks_ticker}/
    /// range/{multiplier}/{timespan}/{from}/{to}`.
    pub fn stock_equities_aggregates<'a>(
        self,
        stocks_ticker: &str,
        multiplier: u32,
        timespan: &str,
        from: &str,
        to: &str,
        query_params: &'a HashMap<&'a str, &'a str>,
    ) -> (request: Request<'a>)
        ensures
            request@ == self.get(
                aggregates_path(stocks_ticker@, multiplier as nat, timespan@, from@, to@),
                query_params,
            ),
    {
        let uri = aggregates_uri(stocks_ticker, multiplier, timespan, from, to);
        self.send_request(uri.as_str(), query_params)
    }

    /// The daily open, high, low and close of a whole market. Path:
    /// `/v2/aggs/grouped/locale/{locale}/market/{market}/{date}`.
    pub fn stock_equities_grouped_daily<'a>(
        self,
        locale: &str,
        market: &str,
        date: &str,
        query_params: &'a HashMap<&'a str, &'a str>,
    ) -> (request: Request<'a>)
        ensures
            request@ == self.get(
                "/v2/aggs/grouped/locale/"@ + locale@ + "/market/"@ + market@ + "/"@ + date@,
                query_params,
            ),
    {
        let mut uri = String::from_str("/v2/aggs/grouped/locale/");
        uri.append(locale);
        uri.append("/market/");
        uri.append(market);
        uri.append("/");
        uri.append(date);
        self.send_request(uri.as_str(), query_params)
    }

    /// The previous day's open, high, low and close of a stock. Path:
    /// `/v2/aggs/ticker/{stocks_ticker}/prev`.
    pub fn stock_equities_previous_close<'a>(
        self,
        stocks_ticker: &str,
        query_params: &'a HashMap<&'a str, &'a str>,
    ) -> (request: Request<'a>)
        ensures
            request@ == self.get(previous_close_path(stocks_ticker@), query_params),
    {
        let uri = previous_close_uri(stocks_ticker);
        self.send_request(uri.as_str(), query_params)
    }

    /// The current minute, day and previous day's aggregates, with the last
    /// trade and quote, of all stocks traded in the United States. Path:
    /// `/v2/snapshot/locale/us/markets/stocks/tickers`.
    pub fn stock_equities_snapshot_all_tickers<'a>(
        self,
        query_params: &'a HashMap<&'a str, &'a str>,
    ) -> (request: Request<'a>)
        ensures
            request@ == self.get("/v2/snapshot/locale/us/markets/stocks/tickers"@, query_params),
    {
        self.send_request("/v2/snapshot/locale/us/markets/stocks/tickers", query_params)
    }

    /// The current minute, day and previous day's aggregates, with the last
    /// trade and quote, of one stock traded in the United States. Path:
    /// `/v2/snapshot/locale/us/markets/stocks/tickers/{ticker}`.
    pub fn stock_equities_snapshot_single_ticker<'a>(
        self,
        ticker: &str,
        query_params: &'a HashMap<&'a str, &'a str>,
    ) -> (request: Request<'a>)
        ensures
            request@ == self.get(
                "/v2/snapshot/locale/us/markets/stocks/tickers/"@ + ticker@,
                query_params,
            ),
    {
        let mut uri = String::from_str("/v2/snapshot/locale/us/markets/stocks/tickers/");
        uri.append(ticker);
        self.send_request(uri.as_str(), query_params)
    }

    /// The day's top gainers or losers among the stocks traded in the United
    /// States, as `direction` says. Path:
    /// `/v2/snapshot/locale/us/markets/stocks/{direction}`.
    pub fn stock_equities_snapshot_gainers_losers<'a>(
        self,
        direction: &str,
        query_params: &'a HashMap<&'a str, &'a str>,
    ) -> (request: Request<'a>)
        ensures
            request@ == self.get(
                "/v2/snapshot/locale/us/markets/stocks/"@ + direction@,
                query_params,
            ),
    {
        let mut uri = String::from_str("/v2/snapshot/locale/us/markets/stocks/");
        uri.append(direction);
        self.send_request(uri.as_str(), query_params)
    }

    /// Lists the cryptocurrency exchanges that the service covers. Path:
    /// `/v1/meta/crypto-exchanges`.
    pub fn crypto_crypto_exchanges<'a>(
        self,
        query_params: &'a HashMap<&'a str, &'a str>,
    ) -> (request: Request<'a>)
        ensures
            request@ == self.get("/v1/meta/crypto-exchanges"@, query_params),
    {
        self.send_request("/v1/meta/crypto-exchanges", query_params)
    }

}

} // verus!
