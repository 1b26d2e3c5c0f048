//! What holds of matching, rewriting and routing, for every input.

use crate::bridge::topic_mapper::{
    has_wildcard_char, hash_token, is_first_defect, misplaced_multi_level, pattern_matches,
    pattern_well_formed, plus_token, rewritten_topic, substitute, token_well_formed,
    tokens_match, topic_tokens, PatternError,
};
use crate::bridge::worker::{
    dispatch_of, firing_count, mapping_fires, routed, subscribes, subscription_topics,
    target_known, unknown_target_count, ForwardMessage,
};
use crate::models::TopicMapping;
use crate::text::{lemma_join_split, lemma_split_injective, lemma_split_nonempty, split_on};
use vstd::prelude::*;

verus! {

/// Whether no token of `tokens` is a wildcard.
pub open spec fn literal_tokens(tokens: Seq<Seq<char>>) -> bool {
    forall|i: int|
        0 <= i < tokens.len() ==> (#[trigger] tokens[i]) != plus_token() && tokens[i]
            != hash_token()
}

/// Every character of every segment of a split occurs in the text.
pub proof fn lemma_split_chars_from_text(s: Seq<char>, sep: char)
    ensures
        forall|i: int, c: char|
            0 <= i < split_on(s, sep).len() && (#[trigger] split_on(s, sep)[i]).contains(c)
                ==> #[trigger] s.contains(c),
    decreases s.len(),
{
    if s.len() > 0 {
        let init = split_on(s.drop_last(), sep);
        lemma_split_nonempty(s.drop_last(), sep);
        lemma_split_chars_from_text(s.drop_last(), sep);
        assert forall|i: int, c: char|
            0 <= i < split_on(s, sep).len() && (#[trigger] split_on(s, sep)[i]).contains(
                c,
            ) implies #[trigger] s.contains(c) by {
            let segment = split_on(s, sep)[i];
            let at = choose|k: int| 0 <= k < segment.len() && segment[k] == c;
            if s.last() == c {
                assert(s[s.len() - 1] == c);
            } else {
                if i < init.len() - 1 || (s.last() == sep && i < init.len()) {
                    assert(segment == init[i]);
                    assert(init[i].contains(c));
                } else if s.last() == sep {
                    assert(segment.len() == 0);
                } else {
                    assert(segment == init.last().push(s.last()));
                    assert(at < init.last().len());
                    assert(init.last()[at] == c);
                    assert(init[init.len() - 1].contains(c));
                }
                assert(s.drop_last().contains(c));
                let k = choose|k: int| 0 <= k < s.drop_last().len() && s.drop_last()[k] == c;
                assert(s[k] == c);
            }
        }
    }
}

/// A pattern without the characters `+` and `#` has no wildcard token.
pub proof fn lemma_wildcard_free_tokens(pattern: Seq<char>)
    requires
        !has_wildcard_char(pattern),
    ensures
        literal_tokens(topic_tokens(pattern)),
{
    lemma_split_chars_from_text(pattern, '/');
    let tokens = topic_tokens(pattern);
    assert forall|i: int| 0 <= i < tokens.len() implies (#[trigger] tokens[i]) != plus_token()
        && tokens[i] != hash_token() by {
        if tokens[i] == plus_token() {
            assert(tokens[i][0] == '+');
            assert(split_on(pattern, '/')[i].contains('+'));
            assert(pattern.contains('+'));
        }
        if tokens[i] == hash_token() {
            assert(tokens[i][0] == '#');
            assert(split_on(pattern, '/')[i].contains('#'));
            assert(pattern.contains('#'));
        }
    }
}

/// Pattern tokens without a wildcard accept only themselves.
pub proof fn lemma_literal_tokens_match_themselves(p: Seq<Seq<char>>, t: Seq<Seq<char>>)
    requires
        literal_tokens(p),
    ensures
        tokens_match(p, t) <==> p == t,
    decreases p.len(),
{
    if p.len() == 0 {
        assert(t.len() == 0 <==> p =~= t);
    } else {
        assert(p[0] != plus_token() && p[0] != hash_token());
        if t.len() > 0 {
            assert forall|i: int| 0 <= i < p.drop_first().len() implies (
            #[trigger] p.drop_first()[i]) != plus_token() && p.drop_first()[i] != hash_token() by {
                assert(p.drop_first()[i] == p[i + 1]);
            }
            lemma_literal_tokens_match_themselves(p.drop_first(), t.drop_first());
            if p[0] == t[0] && p.drop_first() == t.drop_first() {
                assert(p =~= seq![p[0]] + p.drop_first());
                assert(t =~= seq![t[0]] + t.drop_first());
            }
        }
    }
}

/// A topic that matches a pattern without wildcards is the pattern itself.
pub proof fn lemma_wildcard_free_match_is_equality(pattern: Seq<char>, topic: Seq<char>)
    requires
        !has_wildcard_char(pattern),
        pattern_matches(pattern, topic),
    ensures
        pattern == topic,
{
    lemma_wildcard_free_tokens(pattern);
    lemma_literal_tokens_match_themselves(topic_tokens(pattern), topic_tokens(topic));
    lemma_split_injective(pattern, topic, '/');
}

/// A pattern without wildcards matches itself.
pub proof fn lemma_wildcard_free_matches_itself(pattern: Seq<char>)
    requires
        !has_wildcard_char(pattern),
    ensures
        pattern_matches(pattern, pattern),
{
    lemma_wildcard_free_tokens(pattern);
    lemma_literal_tokens_match_themselves(topic_tokens(pattern), topic_tokens(pattern));
}

/// The pattern `#` has the single token `#`.
pub proof fn lemma_hash_pattern_tokens()
    ensures
        topic_tokens(hash_token()) == seq![hash_token()],
{
    let s = hash_token();
    assert(s.drop_last() =~= Seq::<char>::empty());
    assert(split_on(s.drop_last(), '/') == seq![Seq::<char>::empty()]);
    assert(split_on(s, '/') =~= seq![hash_token()]) by {
        reveal_with_fuel(split_on, 2);
        assert(Seq::<char>::empty().push('#') =~= hash_token());
    }
}

/// The pattern `#` matches every topic.
pub proof fn lemma_hash_matches_every_topic(topic: Seq<char>)
    ensures
        pattern_matches(hash_token(), topic),
{
    lemma_hash_pattern_tokens();
}

/// A pattern with the token `#` anywhere but at its end is not well formed,
/// so that no mapping with such a pattern is ever stored or matched.
pub proof fn lemma_misplaced_multi_level_rejected(pattern: Seq<char>, i: int)
    requires
        0 <= i < topic_tokens(pattern).len() - 1,
        topic_tokens(pattern)[i] == hash_token(),
    ensures
        !pattern_well_formed(pattern),
{
    assert(misplaced_multi_level(topic_tokens(pattern), i));
    assert(!token_well_formed(topic_tokens(pattern), i));
}

/// A pattern has one first defect at most: the check can answer in one way
/// only.
pub proof fn lemma_first_defect_unique(pattern: Seq<char>, a: PatternError, b: PatternError)
    requires
        is_first_defect(pattern, a),
        is_first_defect(pattern, b),
    ensures
        a == b,
{
    let tokens = topic_tokens(pattern);
    let at_a: int = match a {
        PatternError::MisplacedMultiLevel { token } => token as int,
        PatternError::EmbeddedWildcard { token } => token as int,
    };
    let at_b: int = match b {
        PatternError::MisplacedMultiLevel { token } => token as int,
        PatternError::EmbeddedWildcard { token } => token as int,
    };
    assert(!token_well_formed(tokens, at_a));
    assert(!token_well_formed(tokens, at_b));
    if at_a < at_b {
        assert(token_well_formed(tokens, at_a));
    }
    if at_b < at_a {
        assert(token_well_formed(tokens, at_b));
    }
}

/// Template tokens without a wildcard emit themselves, whatever the source.
pub proof fn lemma_literal_template_emits_itself(template: Seq<Seq<char>>, source: Seq<Seq<char>>)
    requires
        literal_tokens(template),
    ensures
        substitute(template, source) == template,
    decreases template.len(),
{
    if template.len() == 0 {
        assert(substitute(template, source) =~= template);
    } else {
        assert(template[0] != plus_token() && template[0] != hash_token());
        assert forall|i: int| 0 <= i < template.drop_first().len() implies (
        #[trigger] template.drop_first()[i]) != plus_token() && template.drop_first()[i]
            != hash_token() by {
            assert(template.drop_first()[i] == template[i + 1]);
        }
        lemma_literal_template_emits_itself(template.drop_first(), source);
        assert(seq![template[0]] + template.drop_first() =~= template);
    }
}

/// A template without wildcard tokens is the target topic of every source
/// topic, under every pattern.
pub proof fn lemma_literal_template_kept(
    pattern: Seq<char>,
    template: Seq<char>,
    source: Seq<char>,
)
    requires
        literal_tokens(topic_tokens(template)),
    ensures
        rewritten_topic(pattern, template, source) == template,
{
    lemma_literal_template_emits_itself(topic_tokens(template), topic_tokens(source));
    lemma_join_split(template, '/');
}

/// A template of a literal, `+` and a literal emits the first token of the
/// source between the two literals, wherever in the source the pattern's own
/// `+` stood.
pub proof fn lemma_plus_takes_first_source_token(
    before: Seq<char>,
    after: Seq<char>,
    source: Seq<Seq<char>>,
)
    requires
        before != plus_token() && before != hash_token(),
        after != plus_token() && after != hash_token(),
        source.len() > 0,
    ensures
        substitute(seq![before, plus_token(), after], source) == seq![before, source[0], after],
{
    let template = seq![before, plus_token(), after];
    let second = template.drop_first();
    let third = second.drop_first();
    assert(second =~= seq![plus_token(), after]);
    assert(third =~= seq![after]);
    assert(third.drop_first() =~= Seq::<Seq<char>>::empty());
    reveal_with_fuel(substitute, 4);
    assert(substitute(third, source.drop_first()) =~= seq![after]);
    assert(substitute(second, source) =~= seq![source[0], after]);
    assert(substitute(template, source) =~= seq![before, source[0], after]);
}

/// A template of a literal and `#` emits the literal and then the whole
/// source, its first token included.
pub proof fn lemma_hash_takes_whole_source(literal: Seq<char>, source: Seq<Seq<char>>)
    requires
        literal != plus_token() && literal != hash_token(),
    ensures
        substitute(seq![literal, hash_token()], source) == seq![literal] + source,
{
    let template = seq![literal, hash_token()];
    let second = template.drop_first();
    assert(second =~= seq![hash_token()]);
    assert(second.drop_first() =~= Seq::<Seq<char>>::empty());
    reveal_with_fuel(substitute, 3);
    assert(hash_token()[0] != plus_token()[0]);
    assert(substitute(second.drop_first(), Seq::<Seq<char>>::empty()) =~= Seq::<Seq<char>>::empty());
    assert(substitute(second, source) =~= source);
    assert(substitute(template, source) =~= seq![literal] + source);
}

/// A mapping whose pattern has no wildcards and whose template is the
/// pattern forwards a message as it came: under the same topic, with the
/// same payload.
pub proof fn lemma_identity_mapping_preserves(mapping: TopicMapping, msg: ForwardMessage)
    requires
        !has_wildcard_char(mapping.source_topic@),
        mapping.target_topic@ == mapping.source_topic@,
        mapping_fires(mapping, msg),
    ensures
        dispatch_of(mapping, msg).topic == mapping.source_topic@,
        dispatch_of(mapping, msg).topic == msg.topic@,
        dispatch_of(mapping, msg).payload == msg.payload@,
{
    lemma_wildcard_free_match_is_equality(mapping.source_topic@, msg.topic@);
}

/// Every firing mapping gives one publish command or counts as one unknown
/// target: the two together are as many as the mappings that fire.
pub proof fn lemma_every_firing_mapping_accounted(
    mappings: Seq<TopicMapping>,
    msg: ForwardMessage,
    mqtt_targets: Seq<u32>,
    zmq_targets: Seq<u32>,
)
    ensures
        routed(mappings, msg, mqtt_targets, zmq_targets).len() + unknown_target_count(
            mappings,
            msg,
            mqtt_targets,
            zmq_targets,
        ) == firing_count(mappings, msg),
    decreases mappings.len(),
{
    if mappings.len() > 0 {
        lemma_every_firing_mapping_accounted(mappings.drop_last(), msg, mqtt_targets, zmq_targets);
    }
}

/// Where every firing mapping names a target that has a worker, the publish
/// commands for a message are as many as the enabled mappings of its source
/// endpoint whose pattern its topic matches.
pub proof fn lemma_one_publish_per_firing_mapping(
    mappings: Seq<TopicMapping>,
    msg: ForwardMessage,
    mqtt_targets: Seq<u32>,
    zmq_targets: Seq<u32>,
)
    requires
        forall|i: int|
            0 <= i < mappings.len() && mapping_fires(#[trigger] mappings[i], msg) ==> target_known(
                mappings[i],
                mqtt_targets,
                zmq_targets,
            ),
    ensures
        routed(mappings, msg, mqtt_targets, zmq_targets).len() == firing_count(mappings, msg),
        unknown_target_count(mappings, msg, mqtt_targets, zmq_targets) == 0,
    decreases mappings.len(),
{
    if mappings.len() > 0 {
        assert forall|i: int|
            0 <= i < mappings.drop_last().len() && mapping_fires(
                #[trigger] mappings.drop_last()[i],
                msg,
            ) implies target_known(mappings.drop_last()[i], mqtt_targets, zmq_targets) by {
            assert(mappings.drop_last()[i] == mappings[i]);
        }
        lemma_one_publish_per_firing_mapping(mappings.drop_last(), msg, mqtt_targets, zmq_targets);
        assert(mappings.last() == mappings[mappings.len() - 1]);
    }
}

/// Every publish command for a message carries the message's payload
/// unchanged, and comes from a mapping that fires for it.
pub proof fn lemma_dispatches_come_from_firing_mappings(
    mappings: Seq<TopicMapping>,
    msg: ForwardMessage,
    mqtt_targets: Seq<u32>,
    zmq_targets: Seq<u32>,
)
    ensures
        forall|k: int|
            0 <= k < routed(mappings, msg, mqtt_targets, zmq_targets).len() ==> {
                &&& (#[trigger] routed(mappings, msg, mqtt_targets, zmq_targets)[k]).payload
                    == msg.payload@
                &&& exists|i: int|
                    0 <= i < mappings.len() && mapping_fires(#[trigger] mappings[i], msg)
                        && routed(mappings, msg, mqtt_targets, zmq_targets)[k] == dispatch_of(
                        mappings[i],
                        msg,
                    )
            },
    decreases mappings.len(),
{
    if mappings.len() > 0 {
        let earlier = routed(mappings.drop_last(), msg, mqtt_targets, zmq_targets);
        let all = routed(mappings, msg, mqtt_targets, zmq_targets);
        lemma_dispatches_come_from_firing_mappings(
            mappings.drop_last(),
            msg,
            mqtt_targets,
            zmq_targets,
        );
        assert forall|k: int| 0 <= k < all.len() implies {
            &&& (#[trigger] all[k]).payload == msg.payload@
            &&& exists|i: int|
                0 <= i < mappings.len() && mapping_fires(#[trigger] mappings[i], msg) && all[k]
                    == dispatch_of(mappings[i], msg)
        } by {
            if k < earlier.len() {
                assert(all[k] == earlier[k]);
                let i = choose|i: int|
                    0 <= i < mappings.drop_last().len() && mapping_fires(
                        #[trigger] mappings.drop_last()[i],
                        msg,
                    ) && earlier[k] == dispatch_of(mappings.drop_last()[i], msg);
                assert(mappings[i] == mappings.drop_last()[i]);
            } else {
                let i = mappings.len() - 1;
                assert(mapping_fires(mappings[i], msg));
                assert(all[k] == dispatch_of(mappings[i], msg));
            }
        }
    }
}

/// The topics that a worker subscribes to are a set: none occurs twice, and
/// a topic is among them just when an enabled mapping of the worker's
/// endpoint has it as its source pattern.
pub proof fn lemma_subscription_topics_are_a_set(mappings: Seq<TopicMapping>, endpoint_id: u32)
    ensures
        subscription_topics(mappings, endpoint_id).no_duplicates(),
        forall|topic: Seq<char>|
            #[trigger] subscription_topics(mappings, endpoint_id).contains(topic) <==> exists|
                i: int,
            |
                0 <= i < mappings.len() && subscribes(#[trigger] mappings[i], endpoint_id)
                    && mappings[i].source_topic@ == topic,
    decreases mappings.len(),
{
    let all = subscription_topics(mappings, endpoint_id);
    if mappings.len() == 0 {
        assert forall|topic: Seq<char>| #[trigger] all.contains(topic) <==> exists|i: int|
            0 <= i < mappings.len() && subscribes(#[trigger] mappings[i], endpoint_id)
                && mappings[i].source_topic@ == topic by {}
    } else {
        let init = mappings.drop_last();
        let earlier = subscription_topics(init, endpoint_id);
        let last = mappings.last();
        lemma_subscription_topics_are_a_set(init, endpoint_id);
        assert forall|topic: Seq<char>| #[trigger] all.contains(topic) <==> exists|i: int|
            0 <= i < mappings.len() && subscribes(#[trigger] mappings[i], endpoint_id)
                && mappings[i].source_topic@ == topic by {
            if all.contains(topic) {
                let k = choose|k: int| 0 <= k < all.len() && all[k] == topic;
                if k < earlier.len() {
                    assert(earlier[k] == topic);
                    assert(earlier.contains(topic));
                    let i = choose|i: int|
                        0 <= i < init.len() && subscribes(#[trigger] init[i], endpoint_id)
                            && init[i].source_topic@ == topic;
                    assert(mappings[i] == init[i]);
                } else {
                    assert(subscribes(mappings[mappings.len() - 1], endpoint_id));
                }
            }
            if exists|i: int|
                0 <= i < mappings.len() && subscribes(#[trigger] mappings[i], endpoint_id)
                    && mappings[i].source_topic@ == topic {
                let i = choose|i: int|
                    0 <= i < mappings.len() && subscribes(#[trigger] mappings[i], endpoint_id)
                        && mappings[i].source_topic@ == topic;
                if i < init.len() {
                    assert(init[i] == mappings[i]);
                    assert(earlier.contains(topic));
                    let k = choose|k: int| 0 <= k < earlier.len() && earlier[k] == topic;
                    assert(all[k] == topic);
                } else if earlier.contains(topic) {
                    let k = choose|k: int| 0 <= k < earlier.len() && earlier[k] == topic;
                    assert(all[k] == topic);
                } else {
                    assert(all == earlier.push(topic));
                    assert(all[earlier.len() as int] == topic);
                }
            }
        }
    }
}

/// A mapping that is not enabled gives no publish command: where no mapping
/// is enabled, nothing is sent and nothing is counted.
pub proof fn lemma_disabled_mappings_stay_silent(
    mappings: Seq<TopicMapping>,
    msg: ForwardMessage,
    mqtt_targets: Seq<u32>,
    zmq_targets: Seq<u32>,
)
    requires
        forall|i: int| 0 <= i < mappings.len() ==> !(#[trigger] mappings[i]).enabled,
    ensures
        routed(mappings, msg, mqtt_targets, zmq_targets).len() == 0,
        unknown_target_count(mappings, msg, mqtt_targets, zmq_targets) == 0,
        firing_count(mappings, msg) == 0,
    decreases mappings.len(),
{
    if mappings.len() > 0 {
        assert forall|i: int| 0 <= i < mappings.drop_last().len() implies !(
        #[trigger] mappings.drop_last()[i]).enabled by {
            assert(mappings.drop_last()[i] == mappings[i]);
        }
        lemma_disabled_mappings_stay_silent(mappings.drop_last(), msg, mqtt_targets, zmq_targets);
        assert(!mappings[mappings.len() - 1].enabled);
    }
}

} // verus!
