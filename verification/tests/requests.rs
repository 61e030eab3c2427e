use artifacts_rs::api::reply::Exchange;
use artifacts_rs::api::schema::types::item::ItemSlot;
use artifacts_rs::api::text::{signed_decimal, unsigned_decimal};
use artifacts_rs::api::wire::{Field, FieldValue, Method, Outgoing};
use artifacts_rs::api::{Api, ApiRequest, HttpRequest};

const HOST: &str = "https://api.artifactsmmo.com";

fn api() -> Api {
    Api::new("TOKEN".to_string())
}

fn pairs(list: &[(&str, &str)]) -> Vec<(String, String)> {
    list.iter().map(|(name, value)| (name.to_string(), value.to_string())).collect()
}

fn assert_reads(outgoing: &Outgoing, path: &str) {
    assert_eq!(outgoing.method, Method::Get);
    assert_eq!(outgoing.url, format!("{}{}", HOST, path));
    assert_eq!(
        outgoing.headers,
        pairs(&[("Accept", "application/json"), ("Authorization", "Bearer TOKEN")])
    );
    assert!(outgoing.body.is_none());
}

fn assert_acts<'a>(outgoing: &'a Outgoing, path: &str) -> &'a Vec<Field> {
    assert_eq!(outgoing.method, Method::Post);
    assert_eq!(outgoing.url, format!("{}{}", HOST, path));
    assert_eq!(
        outgoing.headers,
        pairs(&[
            ("Accept", "application/json"),
            ("Authorization", "Bearer TOKEN"),
            ("Content-Type", "application/json"),
        ])
    );
    assert!(outgoing.query.is_none());
    match &outgoing.body {
        Some(fields) => fields,
        None => panic!("the request has no body"),
    }
}

fn assert_integer(field: &Field, name: &str, expected: i64) {
    assert_eq!(field.name, name);
    assert!(matches!(&field.value, FieldValue::Integer(n) if *n == expected));
}

fn assert_text(field: &Field, name: &str, expected: &str) {
    assert_eq!(field.name, name);
    assert!(matches!(&field.value, FieldValue::Text(text) if text == expected));
}

fn assert_slot(field: &Field, name: &str, expected: ItemSlot) {
    assert_eq!(field.name, name);
    assert!(matches!(&field.value, FieldValue::Slot(slot) if *slot == expected));
}

fn assert_code_and_quantity(fields: &Vec<Field>, code: &str, quantity: i64) {
    assert_eq!(fields.len(), 2);
    assert_text(&fields[0], "code", code);
    assert_integer(&fields[1], "quantity", quantity);
}

struct Greeting;

impl ApiRequest for Greeting {
    fn to_request(&self, name: &str) -> HttpRequest<'_> {
        HttpRequest {
            path: format!("/my/{}/action/greet", name),
            data: None,
            query: None,
            method: Method::Post,
        }
    }
}

#[test]
fn decimal_rendering() {
    assert_eq!(unsigned_decimal(0), "0");
    assert_eq!(unsigned_decimal(7), "7");
    assert_eq!(unsigned_decimal(10), "10");
    assert_eq!(unsigned_decimal(1234567890), "1234567890");
    assert_eq!(unsigned_decimal(u64::MAX), "18446744073709551615");
    assert_eq!(signed_decimal(0), "0");
    assert_eq!(signed_decimal(-1), "-1");
    assert_eq!(signed_decimal(42), "42");
    assert_eq!(signed_decimal(i32::MAX), "2147483647");
    assert_eq!(signed_decimal(i32::MIN), "-2147483648");
}

#[test]
fn status_reads_the_root() {
    let exchange = api().status();
    assert_reads(&exchange.request, "/");
    assert!(exchange.request.query.is_none());
}

#[test]
fn character_is_read_by_name() {
    let exchange = api().character("Alice");
    assert_reads(&exchange.request, "/characters/Alice");
    assert!(exchange.request.query.is_none());
}

#[test]
fn the_token_goes_into_the_authorization_header() {
    let exchange = Api::new("s3cr3t".to_string()).status();
    assert_eq!(
        exchange.request.headers,
        pairs(&[("Accept", "application/json"), ("Authorization", "Bearer s3cr3t")])
    );
}

#[test]
fn move_carries_the_coordinates() {
    let exchange = api().action_move("Alice", -3, 12);
    let fields = assert_acts(&exchange.request, "/my/Alice/action/move");
    assert_eq!(fields.len(), 2);
    assert_integer(&fields[0], "x", -3);
    assert_integer(&fields[1], "y", 12);
}

#[test]
fn rest_has_no_body() {
    let exchange = api().action_rest("Alice");
    let outgoing = &exchange.request;
    assert_eq!(outgoing.method, Method::Post);
    assert_eq!(outgoing.url, format!("{}/my/Alice/action/rest", HOST));
    assert_eq!(
        outgoing.headers,
        pairs(&[("Accept", "application/json"), ("Authorization", "Bearer TOKEN")])
    );
    assert!(outgoing.body.is_none());
    assert!(outgoing.query.is_none());
}

#[test]
fn equip_names_item_slot_and_quantity() {
    let code = "iron_ring".to_string();
    let exchange = api().action_equip_item("Alice", &code, &ItemSlot::Ring2, 1);
    let fields = assert_acts(&exchange.request, "/my/Alice/action/equip");
    assert_eq!(fields.len(), 3);
    assert_text(&fields[0], "code", "iron_ring");
    assert_slot(&fields[1], "slot", ItemSlot::Ring2);
    assert_integer(&fields[2], "quantity", 1);
}

#[test]
fn unequip_names_slot_and_quantity() {
    let exchange = api().action_unequip_item("Alice", &ItemSlot::Utility1, 25);
    let fields = assert_acts(&exchange.request, "/my/Alice/action/unequip");
    assert_eq!(fields.len(), 2);
    assert_slot(&fields[0], "slot", ItemSlot::Utility1);
    assert_integer(&fields[1], "quantity", 25);
}

#[test]
fn actions_on_an_item_name_code_and_quantity() {
    let code = "cooked_gudgeon".to_string();
    let api = api();
    let used = api.action_use_item("Bob", &code, 2);
    assert_code_and_quantity(assert_acts(&used.request, "/my/Bob/action/use"), &code, 2);
    let crafted = api.action_craft("Bob", &code, 3);
    assert_code_and_quantity(assert_acts(&crafted.request, "/my/Bob/action/crafting"), &code, 3);
    let recycled = api.action_recycle("Bob", &code, 4);
    assert_code_and_quantity(assert_acts(&recycled.request, "/my/Bob/action/recycling"), &code, 4);
    let deposited = api.action_deposit_item("Bob", &code, 5);
    assert_code_and_quantity(
        assert_acts(&deposited.request, "/my/Bob/action/bank/deposit"),
        &code,
        5,
    );
    let withdrawn = api.action_withdraw_item("Bob", &code, u32::MAX);
    assert_code_and_quantity(
        assert_acts(&withdrawn.request, "/my/Bob/action/bank/withdraw"),
        &code,
        4294967295,
    );
}

#[test]
fn fight_and_gather_send_an_empty_object() {
    let api = api();
    let fight = api.action_fight("Bob");
    assert!(assert_acts(&fight.request, "/my/Bob/action/fight").is_empty());
    let gather = api.action_gather("Bob");
    assert!(assert_acts(&gather.request, "/my/Bob/action/gathering").is_empty());
}

#[test]
fn gold_moves_name_the_quantity() {
    let api = api();
    let deposit = api.action_deposit_gold("Bob", 100);
    let fields = assert_acts(&deposit.request, "/my/Bob/action/bank/deposit/gold");
    assert_eq!(fields.len(), 1);
    assert_integer(&fields[0], "quantity", 100);
    let withdraw = api.action_withdraw_gold("Bob", 0);
    let fields = assert_acts(&withdraw.request, "/my/Bob/action/bank/withdraw/gold");
    assert_eq!(fields.len(), 1);
    assert_integer(&fields[0], "quantity", 0);
}

#[test]
fn account_reads() {
    let api = api();
    let items = api.bank_items();
    assert_reads(&items.request, "/my/bank/items");
    assert!(items.request.query.is_none());
    let details = api.bank_details();
    assert_reads(&details.request, "/my/bank");
    assert!(details.request.query.is_none());
}

#[test]
fn single_things_are_read_by_their_code() {
    let api = api();
    let code = "copper_ore".to_string();
    let item = api.item(&code);
    assert_reads(&item.request, "/maps/copper_ore");
    let resource = api.resource(&code);
    assert_reads(&resource.request, "/resources/copper_ore");
    let monster = api.monster("chicken");
    assert_reads(&monster.request, "/monsters/chicken");
}

#[test]
fn maps_are_read_by_their_coordinates() {
    let api = api();
    assert_reads(&api.map(0, 0).request, "/maps/0/0");
    assert_reads(&api.map(-5, 17).request, "/maps/-5/17");
    assert_reads(&api.map(i32::MIN, i32::MAX).request, "/maps/-2147483648/2147483647");
}

#[test]
fn filtered_reads_carry_their_query() {
    let api = api();
    let drop = "copper_ore".to_string();
    let resources = api.resources_drop(&drop);
    assert_reads(&resources.request, "/resources");
    assert_eq!(resources.request.query, Some(pairs(&[("drop", "copper_ore")])));

    let content_code = "chicken".to_string();
    let content_type = "monster".to_string();
    let maps = api.maps_content(&content_code, &content_type);
    assert_reads(&maps.request, "/maps");
    assert_eq!(
        maps.request.query,
        Some(pairs(&[("content_code", "chicken"), ("content_type", "monster")]))
    );
}

#[test]
fn send_takes_any_request() {
    let api = api();
    let request = HttpRequest {
        path: "/my/Alice/action/task/new".to_string(),
        data: Some(vec![Field::text("kind", "monsters"), Field::integer("level", -2)]),
        query: Some(vec![("dry", "1"), ("dry", "2")]),
        method: Method::Post,
    };
    let exchange: Exchange<u8> = api.send(request);
    let outgoing = &exchange.request;
    assert_eq!(outgoing.method, Method::Post);
    assert_eq!(outgoing.url, format!("{}/my/Alice/action/task/new", HOST));
    assert_eq!(outgoing.headers.len(), 3);
    assert_eq!(outgoing.query, Some(pairs(&[("dry", "1"), ("dry", "2")])));
    match &outgoing.body {
        Some(fields) => {
            assert_eq!(fields.len(), 2);
            assert_text(&fields[0], "kind", "monsters");
            assert_integer(&fields[1], "level", -2);
        }
        None => panic!("the request has no body"),
    }
}

#[test]
fn requests_of_other_operations_can_be_sent() {
    let api = api();
    let exchange: Exchange<u8> = api.send(Greeting.to_request("Alice"));
    assert_eq!(exchange.request.method, Method::Post);
    assert_eq!(exchange.request.url, format!("{}/my/Alice/action/greet", HOST));
    assert_eq!(exchange.request.headers.len(), 2);
}

#[test]
fn fields_hold_what_they_are_made_of() {
    assert_integer(&Field::integer("x", i64::MIN), "x", i64::MIN);
    assert_text(&Field::text("code", ""), "code", "");
    assert_slot(&Field::slot("slot", ItemSlot::Undefined), "slot", ItemSlot::Undefined);
    let copy = Field::text("code", "ash_wood").clone();
    assert_text(&copy, "code", "ash_wood");
}
