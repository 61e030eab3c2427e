pub mod paging;
pub mod reply;
pub mod schema;
pub mod text;
pub mod wire;

use paging::Pagination;
use reply::Exchange;
use schema::response::my_account::AccountBankDetailsData;
use schema::response::my_characters::{
    CharacterCraftData, CharacterEquipData, CharacterFightData, CharacterGatherData,
    CharacterGoldTransactionData, CharacterItemTransactionData, CharacterMovementData,
    CharacterRecycleData, CharacterRestData, CharacterUseItemData,
};
use schema::response::{ResponseError, StatusData};
use schema::types::character::Character;
use schema::types::item::{Item, ItemCode, ItemComponent, ItemSlot, Resource};
use schema::types::map::GameMap;
use schema::types::monster::Monster;
use text::{decimal, signed_decimal};
use vstd::prelude::*;
use vstd::string::*;
use wire::{
    integer_field, own_pairs, slot_field, text_field, Field, FieldView, Method, Outgoing,
    OutgoingView,
};

verus! {

/// Declares `std::io::Error`, of which nothing but its identity is known
/// here: an [`ApiError`] carries such a value and never looks into it.
#[verifier::external_type_specification]
#[verifier::external_body]
pub struct ExIoError(std::io::Error);

/// A request as an operation describes it: where it goes and what it
/// carries, without the host and the credentials.
#[derive(Debug)]
pub struct HttpRequest<'a> {
    /// The path below the host, beginning with a slash.
    pub path: String,
    /// The members of the JSON object to send as the body, if any.
    pub data: Option<Vec<Field>>,
    /// The query parameters, if any.
    pub query: Option<Vec<(&'a str, &'a str)>>,
    pub method: Method,
}

/// The mathematical value of an [`HttpRequest`].
pub ghost struct HttpRequestView {
    pub path: Seq<char>,
    pub data: Option<Seq<FieldView>>,
    pub query: Option<Seq<(Seq<char>, Seq<char>)>>,
    pub method: Method,
}

impl<'a> View for HttpRequest<'a> {
    type V = HttpRequestView;

    open spec fn view(&self) -> HttpRequestView {
        HttpRequestView {
            path: self.path@,
            data: self.data.deep_view(),
            query: self.query.deep_view(),
            method: self.method,
        }
    }
}

/// A request that reads: method GET, no body, no query.
pub open spec fn get_request(path: Seq<char>) -> HttpRequestView {
    HttpRequestView { path, data: None, query: None, method: Method::Get }
}

/// A request that reads with a query: method GET, no body.
pub open spec fn query_request(path: Seq<char>, query: Seq<(Seq<char>, Seq<char>)>)
    -> HttpRequestView {
    HttpRequestView { path, data: None, query: Some(query), method: Method::Get }
}

/// A request that acts: method POST, no query.
pub open spec fn post_request(path: Seq<char>, data: Option<Seq<FieldView>>) -> HttpRequestView {
    HttpRequestView { path, data, query: None, method: Method::Post }
}

/// The path of an action of the character `name`.
pub open spec fn action_path(name: Seq<char>, action: Seq<char>) -> Seq<char> {
    "/my/"@ + name + "/action/"@ + action
}

/// The body that names an item and a quantity.
pub open spec fn code_and_quantity(code: Seq<char>, quantity: int) -> Seq<FieldView> {
    seq![text_field("code"@, code), integer_field("quantity"@, quantity)]
}

fn joined(prefix: &str, rest: &str) -> (text: String)
    ensures
        text@ == prefix@ + rest@,
{
    let mut text = String::from_str(prefix);
    text.append(rest);
    text
}

fn action(name: &str, verb: &str) -> (path: String)
    ensures
        path@ == action_path(name@, verb@),
{
    let mut path = String::from_str("/my/");
    path.append(name);
    path.append("/action/");
    path.append(verb);
    path
}

fn get(path: String) -> (request: HttpRequest<'static>)
    ensures
        request@ == get_request(path@),
{
    HttpRequest { path, data: None, query: None, method: Method::Get }
}

fn post(path: String, data: Option<Vec<Field>>) -> (request: HttpRequest<'static>)
    ensures
        request@ == post_request(path@, data.deep_view()),
{
    HttpRequest { path, data, query: None, method: Method::Post }
}

fn item_and_quantity(code: &str, quantity: u32) -> (data: Vec<Field>)
    ensures
        data.deep_view() == code_and_quantity(code@, quantity as int),
{
    let data = vec![Field::text("code", code), Field::integer("quantity", quantity as i64)];
    assert(data.deep_view() =~= code_and_quantity(code@, quantity as int));
    data
}

fn quantity_only(quantity: u32) -> (data: Vec<Field>)
    ensures
        data.deep_view() == seq![integer_field("quantity"@, quantity as int)],
{
    let data = vec![Field::integer("quantity", quantity as i64)];
    assert(data.deep_view() =~= seq![integer_field("quantity"@, quantity as int)]);
    data
}

fn empty_object() -> (data: Vec<Field>)
    ensures
        data.deep_view() == Seq::<FieldView>::empty(),
{
    let data: Vec<Field> = Vec::new();
    assert(data.deep_view() =~= Seq::<FieldView>::empty());
    data
}

/// Something that can be put as a request on behalf of a character.
pub trait ApiRequest {
    fn to_request(&self, name: &str) -> HttpRequest<'_>;
}

/// The client's settings: the server it talks to and the token it
/// authenticates with.
pub struct Api {
    token: String,
    host: String,
}

impl Api {
    /// The server that a new client talks to.
    pub const HOST: &'static str = "https://api.artifactsmmo.com";

    /// The token that the client authenticates with.
    pub closed spec fn token(&self) -> Seq<char> {
        self.token@
    }

    /// The server that the client talks to: scheme and host name.
    pub closed spec fn host(&self) -> Seq<char> {
        self.host@
    }

    /// The headers of every request, and the content type as well where
    /// the request has a body.
    pub open spec fn headers(&self, with_body: bool) -> Seq<(Seq<char>, Seq<char>)> {
        let common = seq![
            ("Accept"@, "application/json"@),
            ("Authorization"@, "Bearer "@ + self.token()),
        ];
        if with_body {
            common.push(("Content-Type"@, "application/json"@))
        } else {
            common
        }
    }

    /// What goes on the wire for `request`.
    pub open spec fn outgoing(&self, request: HttpRequestView) -> OutgoingView {
        OutgoingView {
            method: request.method,
            url: self.host() + request.path,
            headers: self.headers(request.data is Some),
            query: request.query,
            body: request.data,
        }
    }

    pub fn new(token: String) -> (api: Self)
        ensures
            api.token() == token@,
            api.host() == Self::HOST@,
    {
        Self { token, host: String::from_str(Self::HOST) }
    }

    fn prepare(&self, request: HttpRequest<'_>) -> (outgoing: Outgoing)
        ensures
            outgoing@ == self.outgoing(request@),
    {
        let mut url = self.host.clone();
        url.append(request.path.as_str());
        let mut bearer = String::from_str("Bearer ");
        bearer.append(self.token.as_str());
        let mut headers: Vec<(String, String)> = Vec::new();
        headers.push((String::from_str("Accept"), String::from_str("application/json")));
        headers.push((String::from_str("Authorization"), bearer));
        if request.data.is_some() {
            headers.push((String::from_str("Content-Type"), String::from_str("application/json")));
        }
        assert(headers.deep_view() =~= self.headers(request.data is Some));
        let query = match &request.query {
            Some(pairs) => Some(own_pairs(pairs)),
            None => None,
        };
        Outgoing { method: request.method, url, headers, query, body: request.data }
    }

    /// Prepares the single exchange that carries `request`: the request goes
    /// to the client's host with the client's token, and the reply holds a
    /// `T` in its success envelope.
    pub fn send<T>(&self, request: HttpRequest<'_>) -> (exchange: Exchange<T>)
        ensures
            exchange.request@ == self.outgoing(request@),
    {
        Exchange::new(self.prepare(request))
    }

    /// Prepares the listing that `request` asks for: page after page of
    /// `T`s, beginning with page 1, each page asked for as `request` is
    /// with the page's number added to the query.
    pub fn send_paginated<T>(&self, request: HttpRequest<'_>) -> (listing: Pagination<T>)
        ensures
            listing.starts(self.outgoing(request@)),
    {
        Pagination::new(self.prepare(request))
    }

    /// The state of the server.
    pub fn status(&self) -> (exchange: Exchange<StatusData>)
        ensures
            exchange.request@ == self.outgoing(get_request("/"@)),
    {
        self.send(get(String::from_str("/")))
    }

    /// The character of the given name.
    pub fn character(&self, name: &str) -> (exchange: Exchange<Character>)
        ensures
            exchange.request@ == self.outgoing(get_request("/characters/"@ + name@)),
    {
        self.send(get(joined("/characters/", name)))
    }

    /* My characters */

    /// Moves the character to the map at `x`, `y`.
    pub fn action_move(&self, name: &str, x: i32, y: i32) -> (exchange: Exchange<CharacterMovementData>)
        ensures
            exchange.request@ == self.outgoing(
                post_request(
                    action_path(name@, "move"@),
                    Some(seq![integer_field("x"@, x as int), integer_field("y"@, y as int)]),
                ),
            ),
    {
        let data = vec![Field::integer("x", x as i64), Field::integer("y", y as i64)];
        assert(data.deep_view() =~= seq![
            integer_field("x"@, x as int),
            integer_field("y"@, y as int),
        ]);
        self.send(post(action(name, "move"), Some(data)))
    }

    /// Lets the character rest.
    pub fn action_rest(&self, name: &str) -> (exchange: Exchange<CharacterRestData>)
        ensures
            exchange.request@ == self.outgoing(post_request(action_path(name@, "rest"@), None)),
    {
        self.send(post(action(name, "rest"), None))
    }

    /// Puts `quantity` of the item `code` into the character's slot `slot`.
    pub fn action_equip_item(
        &self,
        name: &str,
        code: &String,
        slot: &ItemSlot,
        quantity: u32,
    ) -> (exchange: Exchange<CharacterEquipData>)
        ensures
            exchange.request@ == self.outgoing(
                post_request(
                    action_path(name@, "equip"@),
                    Some(
                        seq![
                            text_field("code"@, code@),
                            slot_field("slot"@, *slot),
                            integer_field("quantity"@, quantity as int),
                        ],
                    ),
                ),
            ),
    {
        let data = vec![
            Field::text("code", code.as_str()),
            Field::slot("slot", *slot),
            Field::integer("quantity", quantity as i64),
        ];
        assert(data.deep_view() =~= seq![
            text_field("code"@, code@),
            slot_field("slot"@, *slot),
            integer_field("quantity"@, quantity as int),
        ]);
        self.send(post(action(name, "equip"), Some(data)))
    }

    /// Takes `quantity` of what the character has in the slot `slot` out of it.
    pub fn action_unequip_item(
        &self,
        name: &str,
        slot: &ItemSlot,
        quantity: u32,
    ) -> (exchange: Exchange<CharacterEquipData>)
        ensures
            exchange.request@ == self.outgoing(
                post_request(
                    action_path(name@, "unequip"@),
                    Some(
                        seq![
                            slot_field("slot"@, *slot),
                            integer_field("quantity"@, quantity as int),
                        ],
                    ),
                ),
            ),
    {
        let data = vec![Field::slot("slot", *slot), Field::integer("quantity", quantity as i64)];
        assert(data.deep_view() =~= seq![
            slot_field("slot"@, *slot),
            integer_field("quantity"@, quantity as int),
        ]);
        self.send(post(action(name, "unequip"), Some(data)))
    }

    /// Lets the character use `quantity` of the item `code`.
    pub fn action_use_item(
        &self,
        name: &str,
        code: &ItemCode,
        quantity: u32,
    ) -> (exchange: Exchange<CharacterUseItemData>)
        ensures
            exchange.request@ == self.outgoing(
                post_request(
                    action_path(name@, "use"@),
                    Some(code_and_quantity(code@, quantity as int)),
                ),
            ),
    {
        let data = item_and_quantity(code.as_str(), quantity);
        self.send(post(action(name, "use"), Some(data)))
    }

    /// Lets the character fight the monster on its map.
    pub fn action_fight(&self, name: &str) -> (exchange: Exchange<CharacterFightData>)
        ensures
            exchange.request@ == self.outgoing(
                post_request(action_path(name@, "fight"@), Some(Seq::empty())),
            ),
    {
        self.send(post(action(name, "fight"), Some(empty_object())))
    }

    /// Lets the character gather the resource on its map.
    pub fn action_gather(&self, name: &str) -> (exchange: Exchange<CharacterGatherData>)
        ensures
            exchange.request@ == self.outgoing(
                post_request(action_path(name@, "gathering"@), Some(Seq::empty())),
            ),
    {
        self.send(post(action(name, "gathering"), Some(empty_object())))
    }

    /// Lets the character craft `quantity` of the item `code`.
    pub fn action_craft(
        &self,
        name: &str,
        code: &ItemCode,
        quantity: u32,
    ) -> (exchange: Exchange<CharacterCraftData>)
        ensures
            exchange.request@ == self.outgoing(
                post_request(
                    action_path(name@, "crafting"@),
                    Some(code_and_quantity(code@, quantity as int)),
                ),
            ),
    {
        let data = item_and_quantity(code.as_str(), quantity);
        self.send(post(action(name, "crafting"), Some(data)))
    }

    /// Lets the character recycle `quantity` of the item `code`.
    pub fn action_recycle(
        &self,
        name: &str,
        code: &ItemCode,
        quantity: u32,
    ) -> (exchange: Exchange<CharacterRecycleData>)
        ensures
            exchange.request@ == self.outgoing(
                post_request(
                    action_path(name@, "recycling"@),
                    Some(code_and_quantity(code@, quantity as int)),
                ),
            ),
    {
        let data = item_and_quantity(code.as_str(), quantity);
        self.send(post(action(name, "recycling"), Some(data)))
    }

    /// Moves `quantity` gold from the character to the bank.
    pub fn action_deposit_gold(
        &self,
        name: &str,
        quantity: u32,
    ) -> (exchange: Exchange<CharacterGoldTransactionData>)
        ensures
            exchange.request@ == self.outgoing(
                post_request(
                    action_path(name@, "bank/deposit/gold"@),
                    Some(seq![integer_field("quantity"@, quantity as int)]),
                ),
            ),
    {
        let data = quantity_only(quantity);
        self.send(post(action(name, "bank/deposit/gold"), Some(data)))
    }

    /// Moves `quantity` gold from the bank to the character.
    pub fn action_withdraw_gold(
        &self,
        name: &str,
        quantity: u32,
    ) -> (exchange: Exchange<CharacterGoldTransactionData>)
        ensures
            exchange.request@ == self.outgoing(
                post_request(
                    action_path(name@, "bank/withdraw/gold"@),
                    Some(seq![integer_field("quantity"@, quantity as int)]),
                ),
            ),
    {
        let data = quantity_only(quantity);
        self.send(post(action(name, "bank/withdraw/gold"), Some(data)))
    }

    /// Moves `quantity` of the item `code` from the character to the bank.
    pub fn action_deposit_item(
        &self,
        name: &str,
        code: &ItemCode,
        quantity: u32,
    ) -> (exchange: Exchange<CharacterItemTransactionData>)
        ensures
            exchange.request@ == self.outgoing(
                post_request(
                    action_path(name@, "bank/deposit"@),
                    Some(code_and_quantity(code@, quantity as int)),
                ),
            ),
    {
        let data = item_and_quantity(code.as_str(), quantity);
        self.send(post(action(name, "bank/deposit"), Some(data)))
    }

    /// Moves `quantity` of the item `code` from the bank to the character.
    pub fn action_withdraw_item(
        &self,
        name: &str,
        code: &ItemCode,
        quantity: u32,
    ) -> (exchange: Exchange<CharacterItemTransactionData>)
        ensures
            exchange.request@ == self.outgoing(
                post_request(
                    action_path(name@, "bank/withdraw"@),
                    Some(code_and_quantity(code@, quantity as int)),
                ),
            ),
    {
        let data = item_and_quantity(code.as_str(), quantity);
        self.send(post(action(name, "bank/withdraw"), Some(data)))
    }

    /* My account */

    /// The items in the account's bank, as far as the first page goes.
    pub fn bank_items(&self) -> (exchange: Exchange<Vec<ItemComponent>>)
        ensures
            exchange.request@ == self.outgoing(get_request("/my/bank/items"@)),
    {
        self.send(get(String::from_str("/my/bank/items")))
    }

    /// The size and the gold of the account's bank.
    pub fn bank_details(&self) -> (exchange: Exchange<AccountBankDetailsData>)
        ensures
            exchange.request@ == self.outgoing(get_request("/my/bank"@)),
    {
        self.send(get(String::from_str("/my/bank")))
    }

    /* Items */

    /// All items of the game.
    pub fn items(&self) -> (listing: Pagination<Item>)
        ensures
            listing.starts(self.outgoing(get_request("/items"@))),
    {
        self.send_paginated(get(String::from_str("/items")))
    }

    /// The item `code`, which the server is asked for below `/maps/`.
    pub fn item(&self, code: &ItemCode) -> (exchange: Exchange<Item>)
        ensures
            exchange.request@ == self.outgoing(get_request("/maps/"@ + code@)),
    {
        self.send(get(joined("/maps/", code.as_str())))
    }

    /* Resources */

    /// The resources that drop the item `drop`, as far as the first page goes.
    pub fn resources_drop<'a>(&self, drop: &'a ItemCode) -> (exchange: Exchange<Vec<Resource>>)
        ensures
            exchange.request@ == self.outgoing(
                query_request("/resources"@, seq![("drop"@, drop@)]),
            ),
    {
        let query: Vec<(&str, &str)> = vec![("drop", drop.as_str())];
        assert(query.deep_view() =~= seq![("drop"@, drop@)]);
        self.send(
            HttpRequest {
                path: String::from_str("/resources"),
                data: None,
                query: Some(query),
                method: Method::Get,
            },
        )
    }

    /// All resources of the game.
    pub fn resources(&self) -> (listing: Pagination<Resource>)
        ensures
            listing.starts(self.outgoing(get_request("/resources"@))),
    {
        self.send_paginated(get(String::from_str("/resources")))
    }

    /// The resource `code`.
    pub fn resource(&self, code: &ItemCode) -> (exchange: Exchange<Resource>)
        ensures
            exchange.request@ == self.outgoing(get_request("/resources/"@ + code@)),
    {
        self.send(get(joined("/resources/", code.as_str())))
    }

    /* Maps */

    /// All maps of the game.
    pub fn maps(&self) -> (listing: Pagination<GameMap>)
        ensures
            listing.starts(self.outgoing(get_request("/maps"@))),
    {
        self.send_paginated(get(String::from_str("/maps")))
    }

    /// The maps that hold the given content, as far as the first page goes.
    pub fn maps_content(
        &self,
        content_code: &String,
        content_type: &String,
    ) -> (exchange: Exchange<Vec<GameMap>>)
        ensures
            exchange.request@ == self.outgoing(
                query_request(
                    "/maps"@,
                    seq![("content_code"@, content_code@), ("content_type"@, content_type@)],
                ),
            ),
    {
        let query: Vec<(&str, &str)> = vec![
            ("content_code", content_code.as_str()),
            ("content_type", content_type.as_str()),
        ];
        assert(query.deep_view() =~= seq![
            ("content_code"@, content_code@),
            ("content_type"@, content_type@),
        ]);
        self.send(
            HttpRequest {
                path: String::from_str("/maps"),
                data: None,
                query: Some(query),
                method: Method::Get,
            },
        )
    }

    /// The map at `x`, `y`.
    pub fn map(&self, x: i32, y: i32) -> (exchange: Exchange<GameMap>)
        ensures
            exchange.request@ == self.outgoing(
                get_request("/maps/"@ + decimal(x as int) + "/"@ + decimal(y as int)),
            ),
    {
        let mut path = String::from_str("/maps/");
        path.append(signed_decimal(x).as_str());
        path.append("/");
        path.append(signed_decimal(y).as_str());
        self.send(get(path))
    }

    /* Monsters */

    /// The monster `monster`.
    pub fn monster(&self, monster: &str) -> (exchange: Exchange<Monster>)
        ensures
            exchange.request@ == self.outgoing(get_request("/monsters/"@ + monster@)),
    {
        self.send(get(joined("/monsters/", monster)))
    }

    /// All monsters of the game.
    pub fn monsters(&self) -> (listing: Pagination<Monster>)
        ensures
            listing.starts(self.outgoing(get_request("/monsters"@))),
    {
        self.send_paginated(get(String::from_str("/monsters")))
    }
}

/// The ways in which an operation fails.
#[derive(Debug)]
pub enum ApiError {
    /// The server could not be reached, or its response could not be received.
    ApiError,
    /// The server refused the operation and said why.
    ArtifactsError(ResponseError),
    /// The response did not have the shape that its status calls for.
    UnexpectedApiResponseType,
    /// Reading a response failed below the level of its shape.
    Deserialization(std::io::Error),
    /// A failure that is known by a number only.
    Unknown(u16),
}

impl ApiError {
    /// How the error reads to a person.
    pub open spec fn rendering(&self) -> Seq<char> {
        match self {
            ApiError::ApiError => "Api not found"@,
            ApiError::ArtifactsError(response) => response.rendering(),
            ApiError::UnexpectedApiResponseType => "Unexpected response type"@,
            ApiError::Deserialization(_) => "Deserialization error"@,
            ApiError::Unknown(_) => "Unknown error"@,
        }
    }

    pub fn to_string(&self) -> (text: String)
        ensures
            text@ == self.rendering(),
    {
        match self {
            ApiError::ApiError => String::from_str("Api not found"),
            ApiError::ArtifactsError(response) => response.to_string(),
            ApiError::UnexpectedApiResponseType => String::from_str("Unexpected response type"),
            ApiError::Deserialization(_) => String::from_str("Deserialization error"),
            ApiError::Unknown(_) => String::from_str("Unknown error"),
        }
    }
}

impl From<std::io::Error> for ApiError {
    fn from(source: std::io::Error) -> (error: Self) {
        ApiError::Deserialization(source)
    }
}

impl vstd::std_specs::convert::FromSpecImpl<std::io::Error> for ApiError {
    open spec fn obeys_from_spec() -> bool {
        true
    }

    open spec fn from_spec(source: std::io::Error) -> Self {
        ApiError::Deserialization(source)
    }
}

} // verus!
