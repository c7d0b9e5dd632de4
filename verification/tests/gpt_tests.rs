use tir::client::{Choice, ChoiceMessage, OpenAIResponse};
use tir::error::TirError;
use tir::gpt::GPT;
use tir::structs::{Thematic, Topic};

fn reply_with(content: &str) -> OpenAIResponse {
    OpenAIResponse {
        choices: vec![Choice {
            message: ChoiceMessage {
                role: String::from("assistant"),
                content: String::from(content),
            },
        }],
    }
}

fn empty_reply() -> OpenAIResponse {
    OpenAIResponse { choices: Vec::new() }
}

fn tutor() -> GPT {
    GPT::new(String::from("sk-test"))
}

fn topic(title: &str, explanation: Option<&str>) -> Topic {
    Topic {
        title: String::from(title),
        explanation: explanation.map(String::from),
    }
}

#[test]
fn explanations_follow_call_order() {
    // One reply per topic, in call order: each topic receives its own
    // reply, not another topic's.
    let client = tutor();
    let mut thematic = Thematic {
        title: String::from("T"),
        topics: vec![topic("A", None), topic("B", None)],
    };
    let replies = vec![reply_with("expl-A"), reply_with("expl-B")];
    client.generate_knowledge(&mut thematic, &replies).unwrap();
    assert_eq!(thematic.topics[0].explanation.as_deref(), Some("expl-A"));
    assert_eq!(thematic.topics[1].explanation.as_deref(), Some("expl-B"));
    assert_eq!(thematic.title, "T");
}

#[test]
fn generation_stops_at_the_first_empty_reply() {
    let client = tutor();
    let mut thematic = Thematic {
        title: String::from("Design patterns"),
        topics: vec![
            topic("Singleton", None),
            topic("Builder", Some("old text")),
            topic("Adapter", None),
        ],
    };
    let replies = vec![reply_with("expl-1"), empty_reply(), reply_with("expl-3")];
    let result = client.generate_knowledge(&mut thematic, &replies);
    assert_eq!(result, Err(TirError::EmptyChoiceVec));
    assert_eq!(thematic.topics[0].explanation.as_deref(), Some("expl-1"));
    assert_eq!(thematic.topics[1].explanation.as_deref(), Some("old text"));
    assert_eq!(thematic.topics[2].explanation, None);
}

#[test]
fn generation_step_touches_only_its_topic() {
    let client = tutor();
    let mut thematic = Thematic {
        title: String::from("T"),
        topics: vec![topic("A", None), topic("B", None)],
    };
    client
        .generate_knowledge_step(&mut thematic, 1, &reply_with("expl-B"))
        .unwrap();
    assert_eq!(thematic.topics[0].explanation, None);
    assert_eq!(thematic.topics[1].explanation.as_deref(), Some("expl-B"));
}

#[test]
fn generation_step_on_empty_reply_changes_nothing() {
    let client = tutor();
    let mut thematic = Thematic {
        title: String::from("T"),
        topics: vec![topic("A", None)],
    };
    let result = client.generate_knowledge_step(&mut thematic, 0, &empty_reply());
    assert_eq!(result, Err(TirError::EmptyChoiceVec));
    assert_eq!(thematic.topics[0].explanation, None);
}

#[test]
fn evaluation_reads_score_and_cleans_explanation() {
    let client = tutor();
    let answer = client
        .evaluate_answer(&reply_with("I'd rate this a %7% out of 10"))
        .unwrap();
    assert_eq!(answer.score, 7);
    assert_eq!(answer.explanation, "I'd rate this a 7 out of 10");
}

#[test]
fn evaluation_without_marker_is_a_contract_violation() {
    let client = tutor();
    let result = client.evaluate_answer(&reply_with("A solid answer, well done."));
    assert_eq!(result, Err(TirError::ParseContractViolation));
}

#[test]
fn evaluation_of_an_empty_reply_is_an_empty_result_failure() {
    let client = tutor();
    let result = client.evaluate_answer(&empty_reply());
    assert_eq!(result, Err(TirError::EmptyChoiceVec));
}

#[test]
fn correction_overwrites_the_explanation() {
    let client = tutor();
    let prior = "The Singleton pattern ensures one instance.";
    let mut subject = topic("Singleton design pattern", Some(prior));
    client
        .correct_explanation(&mut subject, &reply_with("A corrected explanation."))
        .unwrap();
    assert_eq!(
        subject.explanation.as_deref(),
        Some("A corrected explanation.")
    );
    assert_ne!(subject.explanation.as_deref(), Some(prior));
    assert_eq!(subject.title, "Singleton design pattern");
}

#[test]
fn correction_on_empty_reply_keeps_the_explanation() {
    let client = tutor();
    let mut subject = topic("Singleton", Some("prior text"));
    let result = client.correct_explanation(&mut subject, &empty_reply());
    assert_eq!(result, Err(TirError::EmptyChoiceVec));
    assert_eq!(subject.explanation.as_deref(), Some("prior text"));
}

#[test]
fn generate_request_carries_both_titles() {
    let client = tutor();
    let thematic = Thematic {
        title: String::from("Design patterns"),
        topics: vec![topic("Singleton", None)],
    };
    let request = client.generate_knowledge_request(&thematic, 0);
    assert_eq!(request.max_tokens, 500);
    assert_eq!(request.model, "gpt-3.5-turbo");
    assert_eq!(request.messages.len(), 2);
    assert_eq!(request.messages[0].role, "system");
    assert_eq!(
        request.messages[0].content,
        "You are my mentor and also a senior software engineer."
    );
    assert_eq!(request.messages[1].role, "user");
    assert_eq!(
        request.messages[1].content,
        "Explain me the Singleton topic (Design patterns) in 500 characters please, I am a very beginner in software development."
    );
}

#[test]
fn evaluate_request_spells_out_the_score_contract() {
    let client = tutor();
    let request = client.evaluate_answer_request(
        String::from("Only one instance exists."),
        topic("Singleton", None),
    );
    assert_eq!(request.max_tokens, 500);
    assert_eq!(request.messages.len(), 2);
    assert_eq!(request.messages[1].role, "user");
    assert_eq!(
        request.messages[1].content,
        "You asked me to explain the 'Singleton' topic, please rate my answer between 1-10 and put your score between two % sign (for example: I would rate your answer a %6% out of 10). My answer: 'Only one instance exists.'"
    );
}

#[test]
fn correct_request_carries_title_explanation_and_instruction() {
    let client = tutor();
    let subject = topic("Singleton", Some("An old explanation."));
    let request = client.correct_explanation_request(
        String::from("Mention the global access point"),
        &subject,
    );
    assert_eq!(request.max_tokens, 500);
    assert_eq!(request.messages.len(), 2);
    assert_eq!(request.messages[1].role, "user");
    assert_eq!(
        request.messages[1].content,
        "For the 'Singleton' topic explanation you gave me this answer: 'An old explanation.'. Please correct it with this instruction: 'Mention the global access point'"
    );
}
