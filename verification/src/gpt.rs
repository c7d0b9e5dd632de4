use crate::client::{Client, OpenAIRequest, OpenAIRequestMessage, OpenAIResponse};
use crate::error::TirError;
use crate::score::{cleaned_text, extract_score, has_score_marker, marker_score};
use crate::structs::{Answer, Thematic, Topic};
use vstd::prelude::*;
use vstd::string::*;

verus! {

/// The token budget every operation hands the transport.
pub const DEFAULT_MAX_TOKENS: u32 = 500;

/// The fixed system prompt, identical across the three operations: it
/// establishes the mentor / senior software engineer persona.
pub open spec fn system_prompt() -> Seq<char> {
    "You are my mentor and also a senior software engineer."@
}

/// The user prompt of the generate operation for one topic.
pub open spec fn generate_prompt(topic_title: Seq<char>, thematic_title: Seq<char>) -> Seq<char> {
    "Explain me the "@ + topic_title + " topic ("@ + thematic_title
        + ") in 500 characters please, I am a very beginner in software development."@
}

/// The user prompt of the evaluate operation: it spells out the score
/// contract the model must honour (the score between two percent signs).
pub open spec fn evaluate_prompt(topic_title: Seq<char>, answer: Seq<char>) -> Seq<char> {
    "You asked me to explain the '"@ + topic_title
        + "' topic, please rate my answer between 1-10 and put your score between two % sign (for example: I would rate your answer a %6% out of 10). My answer: '"@
        + answer + "'"@
}

/// The user prompt of the revise operation.
pub open spec fn correct_prompt(
    topic_title: Seq<char>,
    explanation: Seq<char>,
    correction: Seq<char>,
) -> Seq<char> {
    "For the '"@ + topic_title + "' topic explanation you gave me this answer: '"@ + explanation
        + "'. Please correct it with this instruction: '"@ + correction + "'"@
}

/// The content of the first candidate of a reply; meaningful only when
/// the reply holds at least one candidate.
pub open spec fn first_content(reply: OpenAIResponse) -> Seq<char>
    recommends
        reply.choices@.len() > 0,
{
    reply.choices@[0].message.content@
}

/// The index of the first reply whose candidate list is empty, or the
/// number of replies if every reply holds a candidate. The generate
/// operation fails fast at this index.
pub open spec fn first_empty_reply(replies: Seq<OpenAIResponse>, from: int) -> int
    decreases replies.len() - from,
        when 0 <= from <= replies.len()
{
    if from >= replies.len() {
        replies.len() as int
    } else if replies[from].choices@.len() == 0 {
        from
    } else {
        first_empty_reply(replies, from + 1)
    }
}

proof fn lemma_first_empty_reply_is(replies: Seq<OpenAIResponse>, from: int, i: int)
    requires
        0 <= from <= i <= replies.len(),
        forall|k: int| from <= k < i ==> replies[k].choices@.len() > 0,
        i == replies.len() || replies[i].choices@.len() == 0,
    ensures
        first_empty_reply(replies, from) == i,
    decreases i - from,
{
    if from < i {
        lemma_first_empty_reply_is(replies, from + 1, i);
    }
}

fn system_message() -> (r: OpenAIRequestMessage)
    ensures
        r.role@ == "system"@,
        r.content@ == system_prompt(),
{
    OpenAIRequestMessage::with_system_role(
        String::from_str("You are my mentor and also a senior software engineer."),
    )
}

fn generate_prompt_string(topic_title: &String, thematic_title: &String) -> (r: String)
    ensures
        r@ == generate_prompt(topic_title@, thematic_title@),
{
    let mut s = String::from_str("Explain me the ");
    s.append(topic_title.as_str());
    s.append(" topic (");
    s.append(thematic_title.as_str());
    s.append(") in 500 characters please, I am a very beginner in software development.");
    s
}

fn evaluate_prompt_string(topic_title: &String, answer: &String) -> (r: String)
    ensures
        r@ == evaluate_prompt(topic_title@, answer@),
{
    let mut s = String::from_str("You asked me to explain the '");
    s.append(topic_title.as_str());
    s.append(
        "' topic, please rate my answer between 1-10 and put your score between two % sign (for example: I would rate your answer a %6% out of 10). My answer: '",
    );
    s.append(answer.as_str());
    s.append("'");
    s
}

fn correct_prompt_string(topic_title: &String, explanation: &String, correction: &String) -> (r:
    String)
    ensures
        r@ == correct_prompt(topic_title@, explanation@, correction@),
{
    let mut s = String::from_str("For the '");
    s.append(topic_title.as_str());
    s.append("' topic explanation you gave me this answer: '");
    s.append(explanation.as_str());
    s.append("'. Please correct it with this instruction: '");
    s.append(correction.as_str());
    s.append("'");
    s
}

/// Does the request consist of the fixed system message followed by one
/// user message with the given content, under the fixed token budget and
/// model identifier?
pub open spec fn is_operation_request(r: OpenAIRequest, user_content: Seq<char>) -> bool {
    &&& r.max_tokens == DEFAULT_MAX_TOKENS
    &&& r.model@ == "gpt-3.5-turbo"@
    &&& r.messages@.len() == 2
    &&& r.messages@[0].role@ == "system"@
    &&& r.messages@[0].content@ == system_prompt()
    &&& r.messages@[1].role@ == "user"@
    &&& r.messages@[1].content@ == user_content
}

/// The tutor orchestrator: holds one transport client and nothing else —
/// no session memory survives between operations.
#[derive(Debug, Clone, PartialEq)]
pub struct GPT {
    pub client: Client,
}

impl GPT {
    pub fn new(secret_key: String) -> (r: Self)
        ensures
            r.client.secret_key == secret_key,
    {
        Self { client: Client::new(secret_key) }
    }

    /// The request the generate operation sends for the topic at `index`:
    /// the fixed persona plus a prompt naming the topic within its
    /// thematic.
    pub fn generate_knowledge_request(&self, thematic: &Thematic, index: usize) -> (r:
        OpenAIRequest)
        requires
            index < thematic.topics@.len(),
        ensures
            is_operation_request(
                r,
                generate_prompt(thematic.topics@[index as int].title@, thematic.title@),
            ),
    {
        let user = generate_prompt_string(&thematic.topics[index].title, &thematic.title);
        let mut messages: Vec<OpenAIRequestMessage> = Vec::new();
        messages.push(system_message());
        messages.push(OpenAIRequestMessage::with_user_role(user));
        self.client.build_request(messages, DEFAULT_MAX_TOKENS)
    }

    /// Record the reply for the topic at `index`: on success the topic's
    /// explanation becomes the first candidate's content and every other
    /// topic is untouched; an empty candidate list changes nothing and
    /// surfaces as [`TirError::EmptyChoiceVec`].
    pub fn generate_knowledge_step(
        &self,
        thematic: &mut Thematic,
        index: usize,
        reply: &OpenAIResponse,
    ) -> (r: Result<(), TirError>)
        requires
            index < old(thematic).topics@.len(),
        ensures
            reply.choices@.len() == 0 ==> r == Err::<(), TirError>(TirError::EmptyChoiceVec)
                && *final(thematic) == *old(thematic),
            reply.choices@.len() > 0 ==> {
                &&& r == Ok::<(), TirError>(())
                &&& final(thematic).title == old(thematic).title
                &&& final(thematic).topics@.len() == old(thematic).topics@.len()
                &&& final(thematic).topics@[index as int].title
                    == old(thematic).topics@[index as int].title
                &&& final(thematic).topics@[index as int].explanation == Some(
                    reply.choices@[0].message.content,
                )
                &&& forall|t: int|
                    0 <= t < old(thematic).topics@.len() && t != index
                        ==> final(thematic).topics@[t] == old(thematic).topics@[t]
            },
    {
        if reply.choices.len() == 0 {
            return Err(TirError::EmptyChoiceVec);
        }
        let content = reply.choices[0].message.content.clone();
        thematic.topics[index].explanation = Some(content);
        Ok(())
    }

    /// Generate an explanation for every topic of the thematic, one reply
    /// per topic in the topics' own order: topic `i` receives the first
    /// candidate of `replies[i]` — call order, not completion order. At
    /// the first reply with no candidates the batch stops: earlier topics
    /// keep their new explanations, the failing topic and all later ones
    /// are untouched, and the error is [`TirError::EmptyChoiceVec`].
    pub fn generate_knowledge(&self, thematic: &mut Thematic, replies: &Vec<OpenAIResponse>) -> (r:
        Result<(), TirError>)
        requires
            replies@.len() == old(thematic).topics@.len(),
        ensures
            final(thematic).title == old(thematic).title,
            final(thematic).topics@.len() == old(thematic).topics@.len(),
            r is Ok <==> first_empty_reply(replies@, 0) == replies@.len(),
            r is Err ==> r == Err::<(), TirError>(TirError::EmptyChoiceVec),
            forall|t: int|
                0 <= t < first_empty_reply(replies@, 0)
                    ==> final(thematic).topics@[t].title == old(thematic).topics@[t].title
                    && final(thematic).topics@[t].explanation == Some(
                    replies@[t].choices@[0].message.content,
                ),
            forall|t: int|
                first_empty_reply(replies@, 0) <= t < old(thematic).topics@.len()
                    ==> final(thematic).topics@[t] == old(thematic).topics@[t],
    {
        let n = replies.len();
        let mut i: usize = 0;
        while i < n
            invariant
                n == replies@.len(),
                replies@.len() == thematic.topics@.len(),
                thematic.topics@.len() == old(thematic).topics@.len(),
                thematic.title == old(thematic).title,
                i <= n,
                forall|t: int| 0 <= t < i ==> replies@[t].choices@.len() > 0,
                forall|t: int|
                    0 <= t < i ==> thematic.topics@[t].title == old(thematic).topics@[t].title
                        && thematic.topics@[t].explanation == Some(
                        replies@[t].choices@[0].message.content,
                    ),
                forall|t: int| i <= t < n ==> thematic.topics@[t] == old(thematic).topics@[t],
            decreases n - i,
        {
            let step = self.generate_knowledge_step(thematic, i, &replies[i]);
            if step.is_err() {
                proof {
                    lemma_first_empty_reply_is(replies@, 0, i as int);
                }
                return Err(TirError::EmptyChoiceVec);
            }
            i = i + 1;
        }
        proof {
            lemma_first_empty_reply_is(replies@, 0, n as int);
        }
        Ok(())
    }

    /// The request the evaluate operation sends: the fixed persona plus a
    /// prompt carrying the topic's title and the learner's answer, and
    /// demanding the `%score%` format.
    pub fn evaluate_answer_request(&self, answer: String, topic: Topic) -> (r: OpenAIRequest)
        ensures
            is_operation_request(r, evaluate_prompt(topic.title@, answer@)),
    {
        let user = evaluate_prompt_string(&topic.title, &answer);
        let mut messages: Vec<OpenAIRequestMessage> = Vec::new();
        messages.push(system_message());
        messages.push(OpenAIRequestMessage::with_user_role(user));
        self.client.build_request(messages, DEFAULT_MAX_TOKENS)
    }

    /// Interpret the model's reply to an evaluate request. The first
    /// candidate's text must carry a `%digits%` score marker: the answer's
    /// score is the marker's value and its explanation is the text with
    /// the marker replaced by the bare digits. No candidates is
    /// [`TirError::EmptyChoiceVec`]; a text that breaks the score contract
    /// (no marker, or digits beyond 255) is
    /// [`TirError::ParseContractViolation`] — never a default score.
    pub fn evaluate_answer(&self, reply: &OpenAIResponse) -> (r: Result<Answer, TirError>)
        ensures
            r is Ok <==> reply.choices@.len() > 0 && has_score_marker(first_content(*reply))
                && marker_score(first_content(*reply)) <= 255,
            r is Ok ==> r->Ok_0.score as int == marker_score(first_content(*reply))
                && r->Ok_0.explanation@ == cleaned_text(first_content(*reply)),
            reply.choices@.len() == 0 ==> r == Err::<Answer, TirError>(TirError::EmptyChoiceVec),
            reply.choices@.len() > 0 && !(has_score_marker(first_content(*reply)) && marker_score(
                first_content(*reply),
            ) <= 255) ==> r == Err::<Answer, TirError>(TirError::ParseContractViolation),
    {
        if reply.choices.len() == 0 {
            return Err(TirError::EmptyChoiceVec);
        }
        match extract_score(reply.choices[0].message.content.as_str()) {
            Ok((score, explanation)) => Ok(Answer { score, explanation }),
            Err(e) => Err(e),
        }
    }

    /// The request the revise operation sends: the fixed persona plus a
    /// prompt carrying the topic's title, its current explanation and the
    /// correction instruction. The topic must already hold an explanation:
    /// revising before generating is a usage error.
    pub fn correct_explanation_request(&self, correction: String, topic: &Topic) -> (r:
        OpenAIRequest)
        requires
            topic.explanation is Some,
        ensures
            is_operation_request(
                r,
                correct_prompt(topic.title@, topic.explanation->0@, correction@),
            ),
    {
        let user = match &topic.explanation {
            Some(explanation) => correct_prompt_string(&topic.title, explanation, &correction),
            None => String::new(),
        };
        let mut messages: Vec<OpenAIRequestMessage> = Vec::new();
        messages.push(system_message());
        messages.push(OpenAIRequestMessage::with_user_role(user));
        self.client.build_request(messages, DEFAULT_MAX_TOKENS)
    }

    /// Record the model's reply to a revise request: on success the
    /// topic's explanation is overwritten with the first candidate's
    /// content; an empty candidate list leaves the explanation unchanged
    /// and surfaces as [`TirError::EmptyChoiceVec`].
    pub fn correct_explanation(&self, topic: &mut Topic, reply: &OpenAIResponse) -> (r: Result<
        (),
        TirError,
    >)
        ensures
            final(topic).title == old(topic).title,
            reply.choices@.len() == 0 ==> r == Err::<(), TirError>(TirError::EmptyChoiceVec)
                && *final(topic) == *old(topic),
            reply.choices@.len() > 0 ==> r == Ok::<(), TirError>(()) && final(topic).explanation
                == Some(reply.choices@[0].message.content),
    {
        if reply.choices.len() == 0 {
            return Err(TirError::EmptyChoiceVec);
        }
        topic.explanation = Some(reply.choices[0].message.content.clone());
        Ok(())
    }
}

/// Law: a successful correction stores exactly the provider's reply, so
/// whenever that reply differs from the prior explanation, the stored
/// explanation strictly changed.
pub proof fn lemma_correction_replaces(topic: Topic, prior: String, corrected: String)
    requires
        topic.explanation == Some(corrected),
        corrected@ != prior@,
    ensures
        topic.explanation != Some(prior),
{
    if topic.explanation == Some(prior) {
        assert(corrected == prior);
    }
}

} // verus!
