use fake_acquirer::acquirer::{AppState, HTTP_CREATED, HTTP_NOT_FOUND, HTTP_OK};
use fake_acquirer::clock::Timestamp;
use fake_acquirer::dispatch::DispatchError;
use fake_acquirer::invoice::CreateInvoice;
use fake_acquirer::signing::hmac_hex;
use fake_acquirer::status::{EmitStatus, InvoiceStatus};
use hmac::{Hmac, Mac};
use sha2::Sha256;

const ID_A: u128 = 0xa1a2a3a4_b1b2_c1c2_d1d2_d3d4d5d6d7d8;
const ID_B: u128 = 0x67e55044_10b1_426f_9247_bb680e5fe0c8;

fn at(secs: i64) -> Timestamp {
    Timestamp { secs, nanos: 0 }
}

fn request(amount: u64, emit_after_ms: u64, emit_status: EmitStatus) -> CreateInvoice {
    CreateInvoice {
        amount,
        currency: "BRL".to_string(),
        webhook_url: "http://x/hook".to_string(),
        emit_after_ms,
        emit_status,
        metadata: serde_json::Value::Null,
    }
}

#[test]
fn create_answers_with_created_status_and_checkout_url() {
    let mut state = AppState::new("dev_secret".to_string());
    let out = state.create_invoice_with(None, request(1000, 50, EmitStatus::Paid), ID_A, at(100));
    assert_eq!(out.status_code, HTTP_CREATED);
    assert_eq!(out.status_code, 201);
    assert_eq!(out.response.id, ID_A);
    assert_eq!(out.response.status, InvoiceStatus::Created);
    assert_eq!(out.response.amount, 1000);
    assert_eq!(out.response.currency, "BRL");
    assert_eq!(out.response.created_at, at(100));
    assert_eq!(out.response.webhook_url, "http://x/hook");
    assert_eq!(
        out.response.checkout_url,
        "https://checkout.local/invoice/a1a2a3a4-b1b2-c1c2-d1d2-d3d4d5d6d7d8"
    );
    assert_eq!(out.response.metadata, serde_json::Value::Null);
    let task = out.dispatcher.unwrap();
    assert_eq!(task.id(), ID_A);
    assert_eq!(task.delay_ms(), 50);
    assert_eq!(task.final_status(), InvoiceStatus::Paid);
    assert_eq!(task.webhook_url(), "http://x/hook");
}

#[test]
fn create_with_zero_delay_still_answers_created() {
    let mut state = AppState::new("dev_secret".to_string());
    let out = state.create_invoice_with(None, request(1, 0, EmitStatus::Failed), ID_A, at(1));
    assert_eq!(out.response.status, InvoiceStatus::Created);
    assert_eq!(state.get_invoice(ID_A).ok().unwrap().status, InvoiceStatus::Created);
    assert_eq!(out.dispatcher.unwrap().delay_ms(), 0);
}

#[test]
fn create_echoes_metadata() {
    let mut state = AppState::new("dev_secret".to_string());
    let metadata: serde_json::Value =
        serde_json::from_str("{\"order\":{\"id\":42,\"tags\":[\"a\",\"b\"]},\"note\":null}").unwrap();
    let mut req = request(5, 10, EmitStatus::Paid);
    req.metadata = metadata.clone();
    req.currency = "USD".to_string();
    let out = state.create_invoice_with(None, req, ID_A, at(1));
    assert_eq!(out.response.metadata, metadata);
    assert_eq!(out.response.currency, "USD");
    let stored = state.get_invoice(ID_A).ok().unwrap();
    assert_eq!(stored.metadata, metadata);
    let pending = state.emit_webhook_at(out.dispatcher.unwrap(), at(2)).unwrap();
    assert_eq!(pending.payload.metadata, metadata);
    assert_eq!(pending.payload.currency, "USD");
}

#[test]
fn scenario_create_then_settle_and_sign() {
    let mut state = AppState::new("dev_secret".to_string());
    let out = state.create_invoice_with(None, request(1000, 50, EmitStatus::Paid), ID_A, at(100));
    assert_eq!(out.response.status, InvoiceStatus::Created);
    let task = out.dispatcher.unwrap();
    assert_eq!(task.delay_ms(), 50);
    assert_eq!(state.get_invoice(ID_A).ok().unwrap().status, InvoiceStatus::Created);

    let pending = state.emit_webhook_at(task, at(101)).unwrap();
    assert_eq!(state.get_invoice(ID_A).ok().unwrap().status, InvoiceStatus::Paid);
    assert_eq!(pending.webhook_url, "http://x/hook");
    assert_eq!(pending.payload.event, "invoice.updated");
    assert_eq!(pending.payload.id, ID_A);
    assert_eq!(pending.payload.status, InvoiceStatus::Paid);
    assert_eq!(pending.payload.amount, 1000);
    assert_eq!(pending.payload.currency, "BRL");
    assert_eq!(pending.payload.emitted_at, at(101));

    let body = "{\"event\":\"invoice.updated\",\"status\":\"paid\"}".to_string();
    let delivery = state.sign_webhook(pending, body.clone());
    assert_eq!(delivery.url, "http://x/hook");
    assert_eq!(delivery.content_type, "application/json");
    assert_eq!(delivery.event, "invoice.updated");
    assert_eq!(delivery.body, body);

    let mut mac = <Hmac<Sha256>>::new_from_slice(b"dev_secret").unwrap();
    mac.update(delivery.body.as_bytes());
    let expected: String = mac.finalize().into_bytes().iter().map(|b| format!("{:02x}", b)).collect();
    assert_eq!(delivery.signature, expected);
    assert_eq!(delivery.signature, hmac_hex("dev_secret", &delivery.body));
}

#[test]
fn settle_keeps_the_terms_of_the_invoice() {
    let mut state = AppState::new("s".to_string());
    let out = state.create_invoice_with(None, request(77, 5, EmitStatus::Chargeback), ID_A, at(9));
    state.emit_webhook_at(out.dispatcher.unwrap(), at(10)).unwrap();
    let stored = state.get_invoice(ID_A).ok().unwrap();
    assert_eq!(stored.id, ID_A);
    assert_eq!(stored.amount, 77);
    assert_eq!(stored.currency, "BRL");
    assert_eq!(stored.webhook_url, "http://x/hook");
    assert_eq!(stored.created_at, at(9));
    assert_eq!(stored.status, InvoiceStatus::Chargeback);
}

#[test]
fn each_requested_status_is_the_one_settled_into() {
    let cases = [
        (EmitStatus::Paid, InvoiceStatus::Paid),
        (EmitStatus::Failed, InvoiceStatus::Failed),
        (EmitStatus::Canceled, InvoiceStatus::Canceled),
        (EmitStatus::Expired, InvoiceStatus::Expired),
        (EmitStatus::Chargeback, InvoiceStatus::Chargeback),
    ];
    let mut state = AppState::new("s".to_string());
    let mut id: u128 = 1;
    for (asked, settled) in cases.iter() {
        let out = state.create_invoice_with(None, request(1, 1, *asked), id, at(1));
        let pending = state.emit_webhook_at(out.dispatcher.unwrap(), at(2)).unwrap();
        assert_eq!(pending.payload.status, *settled);
        assert_eq!(state.get_invoice(id).ok().unwrap().status, *settled);
        id += 1;
    }
}

#[test]
fn settling_one_invoice_leaves_the_others() {
    let mut state = AppState::new("s".to_string());
    let a = state.create_invoice_with(None, request(1, 1, EmitStatus::Paid), ID_A, at(1));
    let b = state.create_invoice_with(None, request(2, 1, EmitStatus::Failed), ID_B, at(1));
    state.emit_webhook_at(b.dispatcher.unwrap(), at(2)).unwrap();
    assert_eq!(state.get_invoice(ID_A).ok().unwrap().status, InvoiceStatus::Created);
    assert_eq!(state.get_invoice(ID_B).ok().unwrap().status, InvoiceStatus::Failed);
    state.emit_webhook_at(a.dispatcher.unwrap(), at(3)).unwrap();
    assert_eq!(state.get_invoice(ID_A).ok().unwrap().status, InvoiceStatus::Paid);
    assert_eq!(state.get_invoice(ID_B).ok().unwrap().status, InvoiceStatus::Failed);
}

#[test]
fn scenario_same_key_returns_first_invoice() {
    let mut state = AppState::new("dev_secret".to_string());
    let first =
        state.create_invoice_with(Some("abc"), request(1000, 50, EmitStatus::Paid), ID_A, at(1));
    let second =
        state.create_invoice_with(Some("abc"), request(2000, 50, EmitStatus::Failed), ID_B, at(2));
    assert_eq!(first.status_code, HTTP_CREATED);
    assert_eq!(second.status_code, HTTP_OK);
    assert_eq!(second.status_code, 200);
    assert_eq!(first.response.id, ID_A);
    assert_eq!(second.response.id, ID_A);
    assert_eq!(first.response.amount, 1000);
    assert_eq!(second.response.amount, 1000);
    assert_eq!(second.response.created_at, at(1));
    assert_eq!(second.response.checkout_url, first.response.checkout_url);
    assert!(first.dispatcher.is_some());
    assert!(second.dispatcher.is_none());
    assert!(state.get_invoice(ID_B).is_err());

    let pending = state.emit_webhook_at(first.dispatcher.unwrap(), at(3)).unwrap();
    assert_eq!(pending.payload.status, InvoiceStatus::Paid);
    assert_eq!(pending.payload.amount, 1000);
}

#[test]
fn different_keys_create_different_invoices() {
    let mut state = AppState::new("dev_secret".to_string());
    let a = state.create_invoice_with(Some("abc"), request(1, 1, EmitStatus::Paid), ID_A, at(1));
    let b = state.create_invoice_with(Some("abd"), request(2, 1, EmitStatus::Paid), ID_B, at(1));
    assert_eq!(a.status_code, HTTP_CREATED);
    assert_eq!(b.status_code, HTTP_CREATED);
    assert_eq!(a.response.id, ID_A);
    assert_eq!(b.response.id, ID_B);
    assert!(b.dispatcher.is_some());
}

#[test]
fn requests_without_key_are_never_replayed() {
    let mut state = AppState::new("dev_secret".to_string());
    let a = state.create_invoice_with(None, request(1, 1, EmitStatus::Paid), ID_A, at(1));
    let b = state.create_invoice_with(None, request(1, 1, EmitStatus::Paid), ID_B, at(1));
    assert_eq!(a.status_code, HTTP_CREATED);
    assert_eq!(b.status_code, HTTP_CREATED);
    assert_eq!(state.get_invoice(ID_A).ok().unwrap().id, ID_A);
    assert_eq!(state.get_invoice(ID_B).ok().unwrap().id, ID_B);
}

#[test]
fn replay_after_settlement_still_answers_created() {
    let mut state = AppState::new("dev_secret".to_string());
    let first = state.create_invoice_with(Some("k"), request(10, 0, EmitStatus::Expired), ID_A, at(1));
    state.emit_webhook_at(first.dispatcher.unwrap(), at(2)).unwrap();
    let again = state.create_invoice_with(Some("k"), request(99, 7, EmitStatus::Paid), ID_B, at(3));
    assert_eq!(again.status_code, HTTP_OK);
    assert_eq!(again.response.id, ID_A);
    assert_eq!(again.response.status, InvoiceStatus::Created);
    assert_eq!(again.response.amount, 10);
    assert_eq!(again.response.created_at, at(1));
    assert_eq!(again.response.checkout_url, first.response.checkout_url);
    assert!(again.dispatcher.is_none());
    assert_eq!(state.get_invoice(ID_A).ok().unwrap().status, InvoiceStatus::Expired);
}

#[test]
fn replay_before_settlement_answers_created() {
    let mut state = AppState::new("dev_secret".to_string());
    let first = state.create_invoice_with(Some("k"), request(10, 50, EmitStatus::Paid), ID_A, at(1));
    let again = state.create_invoice_with(Some("k"), request(10, 50, EmitStatus::Paid), ID_B, at(2));
    assert_eq!(again.status_code, HTTP_OK);
    assert_eq!(again.response.status, InvoiceStatus::Created);
    assert_eq!(again.response.id, first.response.id);
    assert_eq!(state.get_invoice(ID_A).ok().unwrap().status, InvoiceStatus::Created);
}

#[test]
fn lookup_of_unknown_id_is_not_found() {
    let state = AppState::new("dev_secret".to_string());
    let err = state.get_invoice(ID_B).err().unwrap();
    assert_eq!(err.status_code, HTTP_NOT_FOUND);
    assert_eq!(err.status_code, 404);
    assert_eq!(err.error, "invoice_not_found");
    assert_eq!(err.message, "Invoice 67e55044-10b1-426f-9247-bb680e5fe0c8 not found");
}

#[test]
fn lookup_names_the_id_asked_for() {
    let mut state = AppState::new("dev_secret".to_string());
    state.create_invoice_with(None, request(1, 1, EmitStatus::Paid), ID_A, at(1));
    let err = state.get_invoice(1).err().unwrap();
    assert_eq!(err.message, "Invoice 00000000-0000-0000-0000-000000000001 not found");
    assert!(state.get_invoice(ID_A).is_ok());
}

#[test]
fn dispatcher_gives_up_when_its_invoice_is_missing() {
    let mut here = AppState::new("dev_secret".to_string());
    let mut elsewhere = AppState::new("dev_secret".to_string());
    let out = here.create_invoice_with(None, request(1, 1, EmitStatus::Paid), ID_A, at(1));
    let result = elsewhere.emit_webhook_at(out.dispatcher.unwrap(), at(2));
    assert_eq!(result.err(), Some(DispatchError::InvoiceNotFound(ID_A)));
    assert!(elsewhere.get_invoice(ID_A).is_err());
    assert_eq!(here.get_invoice(ID_A).ok().unwrap().status, InvoiceStatus::Created);
}

#[test]
fn signature_depends_on_the_configured_secret() {
    let mut one = AppState::new("one".to_string());
    let mut two = AppState::new("two".to_string());
    let a = one.create_invoice_with(None, request(1, 1, EmitStatus::Paid), ID_A, at(1));
    let b = two.create_invoice_with(None, request(1, 1, EmitStatus::Paid), ID_A, at(1));
    let pa = one.emit_webhook_at(a.dispatcher.unwrap(), at(2)).unwrap();
    let pb = two.emit_webhook_at(b.dispatcher.unwrap(), at(2)).unwrap();
    let da = one.sign_webhook(pa, "{}".to_string());
    let db = two.sign_webhook(pb, "{}".to_string());
    assert_eq!(da.signature, hmac_hex("one", "{}"));
    assert_eq!(db.signature, hmac_hex("two", "{}"));
    assert_ne!(da.signature, db.signature);
}

#[test]
fn create_invoice_draws_a_version_4_identifier() {
    let mut state = AppState::new("dev_secret".to_string());
    let out = state.create_invoice(None, request(1000, 50, EmitStatus::Paid));
    assert_eq!(out.status_code, HTTP_CREATED);
    assert_eq!(out.response.status, InvoiceStatus::Created);
    let id = out.response.id;
    assert_eq!(uuid::Uuid::from_u128(id).get_version_num(), 4);
    assert_eq!(
        out.response.checkout_url,
        format!("https://checkout.local/invoice/{}", uuid::Uuid::from_u128(id))
    );
    assert_eq!(out.dispatcher.unwrap().id(), id);
    assert_eq!(state.get_invoice(id).ok().unwrap().amount, 1000);
}

#[test]
fn create_invoice_replays_under_a_claimed_key() {
    let mut state = AppState::new("dev_secret".to_string());
    let first = state.create_invoice(Some("abc"), request(1000, 50, EmitStatus::Paid));
    let second = state.create_invoice(Some("abc"), request(2000, 50, EmitStatus::Paid));
    assert_eq!(second.status_code, HTTP_OK);
    assert_eq!(second.response.id, first.response.id);
    assert_eq!(second.response.amount, 1000);
    assert_eq!(second.response.created_at, first.response.created_at);
    assert!(second.dispatcher.is_none());
}

#[test]
fn emit_webhook_stamps_the_current_time() {
    let mut state = AppState::new("dev_secret".to_string());
    let out = state.create_invoice(None, request(1000, 0, EmitStatus::Canceled));
    let created_at = out.response.created_at;
    let pending = state.emit_webhook(out.dispatcher.unwrap()).unwrap();
    assert_eq!(pending.payload.status, InvoiceStatus::Canceled);
    assert!(pending.payload.emitted_at.secs >= created_at.secs);
    assert!(created_at.secs > 1_600_000_000);
    assert!(pending.payload.emitted_at.nanos < 2_000_000_000);
}
