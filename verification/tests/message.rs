use bot::dler::{Data, Json, Message, Response};

fn state(plan: &str, plan_time: &str, today_used: &str, used: &str, unused: &str) -> Data {
    Data::Login {
        token: "tok-1".to_string(),
        token_expire: "2025-01-02 00:00:00".to_string(),
        plan: plan.to_string(),
        plan_time: plan_time.to_string(),
        money: "0.00".to_string(),
        aff_money: "1.50".to_string(),
        today_used: today_used.to_string(),
        used: used.to_string(),
        unused: unused.to_string(),
        traffic: "100GB".to_string(),
        integral: "42".to_string(),
    }
}

#[test]
fn message_takes_five_fields_of_the_state_unchanged() {
    let data = state("Pro", "2025-01-01", "1GB", "10GB", "90GB");
    assert_eq!(
        Message::from(&data),
        Message {
            plan: "Pro".to_string(),
            plan_time: "2025-01-01".to_string(),
            today_used: "1GB".to_string(),
            used: "10GB".to_string(),
            unused: "90GB".to_string(),
        }
    );
}

#[test]
fn message_keeps_reserved_characters_until_it_is_rendered() {
    let data = state("*Pro*", "2025-01-01", "1.5GB", "10_GB", "[90GB]");
    let message = Message::from(&data);
    assert_eq!(message.plan, "*Pro*");
    assert_eq!(message.plan_time, "2025-01-01");
    assert_eq!(message.today_used, "1.5GB");
    assert_eq!(message.used, "10_GB");
    assert_eq!(message.unused, "[90GB]");
}

#[test]
fn message_of_a_decoded_response_holds_the_strings_that_were_sent() {
    let text = |s: &str| Json::Text(s.to_string());
    let data = Json::Object(vec![
        ("token".to_string(), text("t")),
        ("token_expire".to_string(), text("e")),
        ("plan".to_string(), text("Pro  ")),
        ("plan_time".to_string(), text(" 2025-01-01")),
        ("money".to_string(), text("m")),
        ("aff_money".to_string(), text("a")),
        ("today_used".to_string(), text("1GB\n")),
        ("used".to_string(), text("")),
        ("unused".to_string(), text("９０GB")),
        ("traffic".to_string(), text("tr")),
        ("integral".to_string(), text("i")),
    ]);
    let json = Json::Object(vec![
        ("ret".to_string(), Json::Integer(200)),
        ("msg".to_string(), text("ok")),
        ("data".to_string(), data),
    ]);
    let response = Response::decode(&json).unwrap();
    let message = Message::from(&response.data);
    assert_eq!(message.plan, "Pro  ");
    assert_eq!(message.plan_time, " 2025-01-01");
    assert_eq!(message.today_used, "1GB\n");
    assert_eq!(message.used, "");
    assert_eq!(message.unused, "９０GB");
}

#[test]
fn rendered_message_lists_the_five_values_in_order() {
    let message = Message::from(&state("Pro", "2025-01-01", "1GB", "10GB", "90GB"));
    assert_eq!(
        message.render(),
        "*Dler Cloud*\nPlan: Pro\nExpires: 2025\\-01\\-01\nToday: 1GB\nUsed: 10GB\nUnused: 90GB"
    );
}

#[test]
fn rendered_message_escapes_what_the_values_hold() {
    let message = Message {
        plan: "*Pro*".to_string(),
        plan_time: "2025.01.01".to_string(),
        today_used: "1.5GB".to_string(),
        used: "10_GB".to_string(),
        unused: "[90GB](x)".to_string(),
    };
    assert_eq!(
        message.render(),
        "*Dler Cloud*\nPlan: \\*Pro\\*\nExpires: 2025\\.01\\.01\nToday: 1\\.5GB\nUsed: 10\\_GB\nUnused: \\[90GB\\]\\(x\\)"
    );
}

#[test]
fn rendered_message_of_empty_values_is_the_bare_layout() {
    let message = Message {
        plan: String::new(),
        plan_time: String::new(),
        today_used: String::new(),
        used: String::new(),
        unused: String::new(),
    };
    assert_eq!(message.render(), "*Dler Cloud*\nPlan: \nExpires: \nToday: \nUsed: \nUnused: ");
}

#[test]
fn rendering_twice_gives_the_same_text() {
    let data = state("Pro", "2025-01-01", "1.5GB", "10GB", "90GB");
    let first = Message::from(&data).render();
    let second = Message::from(&data).render();
    assert_eq!(first, second);
    let message = Message::from(&data);
    assert_eq!(message.render(), message.render());
    assert_eq!(message.render(), first);
}

#[test]
fn states_that_read_alike_are_rendered_alike() {
    let first = state("Pro", "2025-01-01", "1GB", "10GB", "90GB");
    let second = state("Pro", "2025-01-01", "1GB", "10GB", "90GB");
    assert_eq!(Message::from(&first).render(), Message::from(&second).render());
}

#[test]
fn fields_outside_the_message_do_not_change_its_text() {
    let first = state("Pro", "2025-01-01", "1GB", "10GB", "90GB");
    let second = Data::Login {
        token: "another".to_string(),
        token_expire: "never".to_string(),
        plan: "Pro".to_string(),
        plan_time: "2025-01-01".to_string(),
        money: "9.99".to_string(),
        aff_money: "0".to_string(),
        today_used: "1GB".to_string(),
        used: "10GB".to_string(),
        unused: "90GB".to_string(),
        traffic: "1TB".to_string(),
        integral: "0".to_string(),
    };
    assert_eq!(Message::from(&first).render(), Message::from(&second).render());
}

#[test]
fn values_appear_in_the_order_of_the_layout() {
    let text = Message::from(&state("AAA", "BBB", "CCC", "DDD", "EEE")).render();
    let at = |needle: &str| text.find(needle).unwrap();
    assert!(at("AAA") < at("BBB"));
    assert!(at("BBB") < at("CCC"));
    assert!(at("CCC") < at("DDD"));
    assert!(at("DDD") < at("EEE"));
    assert!(at("Plan: ") < at("AAA"));
    assert!(at("Expires: ") < at("BBB"));
    assert!(at("Today: ") < at("CCC"));
    assert!(at("Used: ") < at("DDD"));
    assert!(at("Unused: ") < at("EEE"));
}

#[test]
fn from_the_state_to_the_text_that_is_sent() {
    let data = state("Pro", "2025-01-01", "1GB", "10GB", "90GB");
    let message = Message::from(&data);
    assert_eq!(
        message,
        Message {
            plan: "Pro".to_string(),
            plan_time: "2025-01-01".to_string(),
            today_used: "1GB".to_string(),
            used: "10GB".to_string(),
            unused: "90GB".to_string(),
        }
    );
    let text = message.render();
    let mut from = 0;
    for value in ["Pro", "2025\\-01\\-01", "1GB", "10GB", "90GB"] {
        let at = text[from..].find(value).unwrap();
        from += at + value.len();
    }
    assert!(!text.contains("2025-01-01"));
    assert_eq!(
        text,
        "*Dler Cloud*\nPlan: Pro\nExpires: 2025\\-01\\-01\nToday: 1GB\nUsed: 10GB\nUnused: 90GB"
    );
}
