//! Topic patterns: matching with `+` and `#`, and rewriting a source topic
//! over a template.

use crate::models::{MappingDirection, TopicMapping};
use crate::text::{
    chars_contain, chars_eq, chars_of, join_chars, join_with, optional_view, split_chars,
    split_on, string_of, string_views, views_of,
};
use vstd::prelude::*;
use vstd::slice::slice_to_vec;

verus! {

/// The single-level wildcard token, `+`.
pub open spec fn plus_token() -> Seq<char> {
    seq!['+']
}

/// The multi-level wildcard token, `#`.
pub open spec fn hash_token() -> Seq<char> {
    seq!['#']
}

/// The tokens of a topic or pattern: its segments between `/`.
pub open spec fn topic_tokens(topic: Seq<char>) -> Seq<Seq<char>> {
    split_on(topic, '/')
}

/// Whether the pattern tokens `p` accept the topic tokens `t`.
///
/// Walking both from the front: `#` accepts whatever is left of the topic,
/// nothing included; `+` accepts any one token; any other token accepts only
/// itself. Both have to end together unless a `#` ended the walk.
pub open spec fn tokens_match(p: Seq<Seq<char>>, t: Seq<Seq<char>>) -> bool
    decreases p.len(),
{
    if p.len() == 0 {
        t.len() == 0
    } else if p[0] == hash_token() {
        true
    } else if t.len() == 0 {
        false
    } else if p[0] == plus_token() || p[0] == t[0] {
        tokens_match(p.drop_first(), t.drop_first())
    } else {
        false
    }
}

/// Whether `topic` matches `pattern`.
pub open spec fn pattern_matches(pattern: Seq<char>, topic: Seq<char>) -> bool {
    tokens_match(topic_tokens(pattern), topic_tokens(topic))
}

/// Whether the character `+` or `#` occurs anywhere in `pattern`.
pub open spec fn has_wildcard_char(pattern: Seq<char>) -> bool {
    pattern.contains('+') || pattern.contains('#')
}

/// The tokens that the template tokens emit over the source tokens.
///
/// Walking the template from the front: `+` emits the next source token not
/// yet used, or itself when none is left; `#` emits every source token not
/// yet used; any other token emits itself and uses nothing.
pub open spec fn substitute(template: Seq<Seq<char>>, source: Seq<Seq<char>>) -> Seq<Seq<char>>
    decreases template.len(),
{
    if template.len() == 0 {
        Seq::<Seq<char>>::empty()
    } else if template[0] == plus_token() && source.len() > 0 {
        seq![source[0]] + substitute(template.drop_first(), source.drop_first())
    } else if template[0] == hash_token() {
        source + substitute(template.drop_first(), Seq::<Seq<char>>::empty())
    } else {
        seq![template[0]] + substitute(template.drop_first(), source)
    }
}

/// The target topic for a source topic that came in under `pattern`, over
/// `template`.
///
/// A pattern without wildcard characters leaves the template as it is.
/// Otherwise the template's tokens are substituted over the source's tokens
/// and joined with `/`; a template that emits nothing is returned as it is.
pub open spec fn rewritten_topic(pattern: Seq<char>, template: Seq<char>, source: Seq<char>) -> Seq<
    char,
> {
    if !has_wildcard_char(pattern) {
        template
    } else {
        let emitted = substitute(topic_tokens(template), topic_tokens(source));
        if emitted.len() == 0 {
            template
        } else {
            join_with(emitted, '/')
        }
    }
}

fn is_plus(token: &Vec<char>) -> (yes: bool)
    ensures
        yes == (token@ == plus_token()),
{
    if token.len() == 1 && token[0] == '+' {
        assert(token@ =~= plus_token());
        true
    } else {
        false
    }
}

fn is_hash(token: &Vec<char>) -> (yes: bool)
    ensures
        yes == (token@ == hash_token()),
{
    if token.len() == 1 && token[0] == '#' {
        assert(token@ =~= hash_token());
        true
    } else {
        false
    }
}

/// Matches pattern tokens against topic tokens.
pub fn match_tokens(pattern: &Vec<Vec<char>>, topic: &Vec<Vec<char>>) -> (matched: bool)
    ensures
        matched == tokens_match(views_of(pattern@), views_of(topic@)),
{
    let ghost p = views_of(pattern@);
    let ghost t = views_of(topic@);
    let mut i: usize = 0;
    assert(p.skip(0) == p && t.skip(0) == t);
    while i < pattern.len() && i < topic.len()
        invariant
            i <= pattern.len(),
            i <= topic.len(),
            p == views_of(pattern@),
            t == views_of(topic@),
            tokens_match(p, t) == tokens_match(p.skip(i as int), t.skip(i as int)),
        decreases pattern.len() - i,
    {
        assert(p.skip(i as int)[0] == pattern@[i as int]@);
        assert(t.skip(i as int)[0] == topic@[i as int]@);
        assert(p.skip(i as int).drop_first() == p.skip(i + 1));
        assert(t.skip(i as int).drop_first() == t.skip(i + 1));
        if is_hash(&pattern[i]) {
            return true;
        } else if is_plus(&pattern[i]) || chars_eq(&pattern[i], &topic[i]) {
            i = i + 1;
        } else {
            return false;
        }
    }
    if i < pattern.len() {
        assert(p.skip(i as int)[0] == pattern@[i as int]@);
        assert(t.skip(i as int).len() == 0);
        is_hash(&pattern[i])
    } else {
        assert(p.skip(i as int).len() == 0);
        i == topic.len()
    }
}

/// Substitutes template tokens over source tokens.
pub fn substitute_tokens(template: &Vec<Vec<char>>, source: &Vec<Vec<char>>) -> (emitted: Vec<
    Vec<char>,
>)
    ensures
        views_of(emitted@) == substitute(views_of(template@), views_of(source@)),
{
    let ghost tpl = views_of(template@);
    let ghost src = views_of(source@);
    let mut emitted: Vec<Vec<char>> = Vec::new();
    let mut used: usize = 0;
    let mut k: usize = 0;
    assert(tpl.skip(0) == tpl && src.skip(0) == src);
    assert(views_of(emitted@) + substitute(tpl, src) == substitute(tpl, src));
    while k < template.len()
        invariant
            k <= template.len(),
            used <= source.len(),
            tpl == views_of(template@),
            src == views_of(source@),
            views_of(emitted@) + substitute(tpl.skip(k as int), src.skip(used as int))
                == substitute(tpl, src),
        decreases template.len() - k,
    {
        let ghost before = views_of(emitted@);
        let ghost rest = tpl.skip(k as int);
        let ghost left = src.skip(used as int);
        assert(rest[0] == template@[k as int]@);
        assert(rest.drop_first() == tpl.skip(k + 1));
        let token = &template[k];
        if is_plus(token) && used < source.len() {
            assert(left[0] == source@[used as int]@);
            assert(left.drop_first() == src.skip(used + 1));
            emitted.push(slice_to_vec(source[used].as_slice()));
            used = used + 1;
            assert(views_of(emitted@) == before + seq![left[0]]);
            assert(before + (seq![left[0]] + substitute(rest.drop_first(), left.drop_first()))
                == (before + seq![left[0]]) + substitute(rest.drop_first(), left.drop_first()));
        } else if is_hash(token) {
            let ghost start = used;
            while used < source.len()
                invariant
                    start <= used <= source.len(),
                    src == views_of(source@),
                    views_of(emitted@) == before + src.subrange(start as int, used as int),
                decreases source.len() - used,
            {
                let ghost so_far = views_of(emitted@);
                emitted.push(slice_to_vec(source[used].as_slice()));
                assert(views_of(emitted@) == so_far.push(source@[used as int]@));
                assert(src.subrange(start as int, used + 1) == src.subrange(
                    start as int,
                    used as int,
                ).push(source@[used as int]@));
                used = used + 1;
            }
            assert(src.subrange(start as int, used as int) == left);
            assert(src.skip(used as int) == Seq::<Seq<char>>::empty());
            assert(before + (left + substitute(rest.drop_first(), Seq::<Seq<char>>::empty()))
                == (before + left) + substitute(rest.drop_first(), Seq::<Seq<char>>::empty()));
        } else {
            emitted.push(slice_to_vec(token.as_slice()));
            assert(views_of(emitted@) == before + seq![rest[0]]);
            assert(before + (seq![rest[0]] + substitute(rest.drop_first(), left)) == (before
                + seq![rest[0]]) + substitute(rest.drop_first(), left));
        }
        k = k + 1;
    }
    assert(tpl.skip(k as int).len() == 0);
    assert(views_of(emitted@) + Seq::<Seq<char>>::empty() == views_of(emitted@));
    emitted
}

/// Whether `topic` matches `pattern`, over character vectors.
pub fn match_chars(pattern: &Vec<char>, topic: &Vec<char>) -> (matched: bool)
    ensures
        matched == pattern_matches(pattern@, topic@),
{
    let pattern_parts = split_chars(pattern, '/');
    let topic_parts = split_chars(topic, '/');
    match_tokens(&pattern_parts, &topic_parts)
}

/// The target topic for `source` under `pattern` over `template`, over
/// character vectors.
pub fn rewrite_chars(pattern: &Vec<char>, template: &Vec<char>, source: &Vec<char>) -> (target:
    Vec<char>)
    ensures
        target@ == rewritten_topic(pattern@, template@, source@),
{
    if !chars_contain(pattern, '+') && !chars_contain(pattern, '#') {
        return slice_to_vec(template.as_slice());
    }
    let source_parts = split_chars(source, '/');
    let template_parts = split_chars(template, '/');
    let emitted = substitute_tokens(&template_parts, &source_parts);
    if emitted.len() == 0 {
        slice_to_vec(template.as_slice())
    } else {
        join_chars(&emitted, '/')
    }
}

/// Whether `topic` matches `pattern`.
///
/// Both are split at `/`. In the pattern, `+` stands for any one token and
/// `#` for whatever is left of the topic, nothing included.
pub fn matches_topic_pattern(pattern: &str, topic: &str) -> (matched: bool)
    ensures
        matched == pattern_matches(pattern@, topic@),
{
    let pattern_chars = chars_of(pattern);
    let topic_chars = chars_of(topic);
    match_chars(&pattern_chars, &topic_chars)
}

/// The target topic for the source topic `source`, which came in under
/// `pattern`, over the template `target`.
pub fn apply_topic_mapping(pattern: &str, target: &str, source: &str) -> (rewritten: String)
    ensures
        rewritten@ == rewritten_topic(pattern@, target@, source@),
{
    let pattern_chars = chars_of(pattern);
    let target_chars = chars_of(target);
    let source_chars = chars_of(source);
    let rewritten = rewrite_chars(&pattern_chars, &target_chars, &source_chars);
    string_of(&rewritten)
}

/// What makes a pattern unacceptable, with the index of the first token at
/// fault.
#[derive(Debug, Clone, Copy, PartialEq, Eq, Structural)]
pub enum PatternError {
    /// The token `#` stands before the last token.
    MisplacedMultiLevel { token: usize },
    /// A token holds `+` or `#` beside other characters.
    EmbeddedWildcard { token: usize },
}

/// Whether token `i` is `#` without being the last token.
pub open spec fn misplaced_multi_level(tokens: Seq<Seq<char>>, i: int) -> bool {
    tokens[i] == hash_token() && i != tokens.len() - 1
}

/// Whether token `i` holds a wildcard character without being a wildcard.
pub open spec fn embedded_wildcard(tokens: Seq<Seq<char>>, i: int) -> bool {
    has_wildcard_char(tokens[i]) && tokens[i] != plus_token() && tokens[i] != hash_token()
}

/// Whether token `i` is acceptable in a pattern.
pub open spec fn token_well_formed(tokens: Seq<Seq<char>>, i: int) -> bool {
    !misplaced_multi_level(tokens, i) && !embedded_wildcard(tokens, i)
}

/// Whether a pattern is acceptable: `+` and `#` only as whole tokens, and `#`
/// only as the last one.
pub open spec fn pattern_well_formed(pattern: Seq<char>) -> bool {
    forall|i: int|
        0 <= i < topic_tokens(pattern).len() ==> token_well_formed(topic_tokens(pattern), i)
}

/// Whether `error` names the first token of `pattern` that is not well
/// formed, and what is wrong with it.
pub open spec fn is_first_defect(pattern: Seq<char>, error: PatternError) -> bool {
    let tokens = topic_tokens(pattern);
    match error {
        PatternError::MisplacedMultiLevel { token } => {
            &&& token < tokens.len()
            &&& misplaced_multi_level(tokens, token as int)
            &&& forall|j: int| 0 <= j < token ==> token_well_formed(tokens, j)
        },
        PatternError::EmbeddedWildcard { token } => {
            &&& token < tokens.len()
            &&& embedded_wildcard(tokens, token as int)
            &&& forall|j: int| 0 <= j < token ==> token_well_formed(tokens, j)
        },
    }
}

/// Checks a pattern before it is stored.
///
/// Returns the first token at fault, with what is wrong with it.
pub fn validate_pattern(pattern: &str) -> (checked: Result<(), PatternError>)
    ensures
        checked is Ok <==> pattern_well_formed(pattern@),
        checked matches Err(error) ==> is_first_defect(pattern@, error),
{
    let pattern_chars = chars_of(pattern);
    let parts = split_chars(&pattern_chars, '/');
    let ghost tokens = topic_tokens(pattern@);
    let mut i: usize = 0;
    while i < parts.len()
        invariant
            i <= parts.len(),
            tokens == views_of(parts@),
            tokens == topic_tokens(pattern@),
            forall|j: int| 0 <= j < i ==> token_well_formed(tokens, j),
        decreases parts.len() - i,
    {
        let token = &parts[i];
        assert(tokens[i as int] == token@);
        if is_hash(token) {
            if i + 1 != parts.len() {
                assert(!token_well_formed(tokens, i as int));
                return Err(PatternError::MisplacedMultiLevel { token: i });
            }
        } else if !is_plus(token) && (chars_contain(token, '+') || chars_contain(token, '#')) {
            assert(!token_well_formed(tokens, i as int));
            return Err(PatternError::EmbeddedWildcard { token: i });
        }
        i = i + 1;
    }
    Ok(())
}

/// Whether a mapping with this direction forwards from MQTT to ZeroMQ.
pub open spec fn forwards_mqtt_to_zmq(direction: MappingDirection) -> bool {
    direction == MappingDirection::MqttToZmq || direction == MappingDirection::Bidirectional
}

/// Whether a mapping with this direction forwards from ZeroMQ to MQTT.
pub open spec fn forwards_zmq_to_mqtt(direction: MappingDirection) -> bool {
    direction == MappingDirection::ZmqToMqtt || direction == MappingDirection::Bidirectional
}

/// Whether a mapping is enabled and forwards the given way.
pub open spec fn forwards(mapping: TopicMapping, from_mqtt: bool) -> bool {
    mapping.enabled && if from_mqtt {
        forwards_mqtt_to_zmq(mapping.direction)
    } else {
        forwards_zmq_to_mqtt(mapping.direction)
    }
}

/// The source patterns of the enabled mappings that forward from MQTT, in
/// the order of the mappings.
pub open spec fn mqtt_subscribe_topics(mappings: Seq<TopicMapping>) -> Seq<Seq<char>>
    decreases mappings.len(),
{
    if mappings.len() == 0 {
        Seq::<Seq<char>>::empty()
    } else {
        let earlier = mqtt_subscribe_topics(mappings.drop_last());
        if forwards(mappings.last(), true) {
            earlier.push(mappings.last().source_topic@)
        } else {
            earlier
        }
    }
}

/// The target topic that the first mapping which forwards the given way and
/// matches `topic` gives, if there is one.
pub open spec fn first_rewrite(mappings: Seq<TopicMapping>, from_mqtt: bool, topic: Seq<char>)
    -> Option<Seq<char>>
    decreases mappings.len(),
{
    if mappings.len() == 0 {
        None
    } else if forwards(mappings[0], from_mqtt) && pattern_matches(
        mappings[0].source_topic@,
        topic,
    ) {
        Some(rewritten_topic(mappings[0].source_topic@, mappings[0].target_topic@, topic))
    } else {
        first_rewrite(mappings.drop_first(), from_mqtt, topic)
    }
}

/// Maps topics between MQTT and ZeroMQ over a list of mappings, first
/// match first.
pub struct TopicMapper {
    mappings: Vec<TopicMapping>,
}

impl View for TopicMapper {
    type V = Seq<TopicMapping>;

    closed spec fn view(&self) -> Seq<TopicMapping> {
        self.mappings@
    }
}

impl TopicMapper {
    /// A mapper over `mappings`.
    pub fn new(mappings: Vec<TopicMapping>) -> (mapper: Self)
        ensures
            mapper@ == mappings@,
    {
        Self { mappings }
    }

    /// Replaces the mappings.
    pub fn update_mappings(&mut self, mappings: Vec<TopicMapping>)
        ensures
            final(self)@ == mappings@,
    {
        self.mappings = mappings;
    }

    /// The topics to subscribe to at an MQTT broker: the source patterns of
    /// the enabled mappings that forward from MQTT.
    pub fn get_mqtt_subscribe_topics(&self) -> (topics: Vec<String>)
        ensures
            string_views(topics@) == mqtt_subscribe_topics(self@),
    {
        let mut topics: Vec<String> = Vec::new();
        let mut i: usize = 0;
        while i < self.mappings.len()
            invariant
                i <= self.mappings.len(),
                string_views(topics@) == mqtt_subscribe_topics(self.mappings@.take(i as int)),
            decreases self.mappings.len() - i,
        {
            let mapping = &self.mappings[i];
            assert(self.mappings@.take(i + 1).drop_last() == self.mappings@.take(i as int));
            if mapping.enabled && (mapping.direction == MappingDirection::MqttToZmq
                || mapping.direction == MappingDirection::Bidirectional) {
                let ghost earlier = string_views(topics@);
                topics.push(mapping.source_topic.clone());
                assert(string_views(topics@) == earlier.push(mapping.source_topic@));
            }
            i = i + 1;
        }
        assert(self.mappings@.take(self.mappings.len() as int) == self.mappings@);
        topics
    }

    fn map_topic(&self, source_topic: &str, from_mqtt: bool) -> (target: Option<String>)
        ensures
            optional_view(target) == first_rewrite(self@, from_mqtt, source_topic@),
    {
        let source_chars = chars_of(source_topic);
        let source_parts = split_chars(&source_chars, '/');
        let ghost all = self.mappings@;
        let mut i: usize = 0;
        assert(all.skip(0) == all);
        while i < self.mappings.len()
            invariant
                i <= self.mappings.len(),
                all == self.mappings@,
                source_chars@ == source_topic@,
                views_of(source_parts@) == topic_tokens(source_topic@),
                first_rewrite(all, from_mqtt, source_topic@) == first_rewrite(
                    all.skip(i as int),
                    from_mqtt,
                    source_topic@,
                ),
            decreases self.mappings.len() - i,
        {
            let mapping = &self.mappings[i];
            assert(all.skip(i as int)[0] == *mapping);
            assert(all.skip(i as int).drop_first() == all.skip(i + 1));
            let direction_fits = if from_mqtt {
                mapping.direction == MappingDirection::MqttToZmq || mapping.direction
                    == MappingDirection::Bidirectional
            } else {
                mapping.direction == MappingDirection::ZmqToMqtt || mapping.direction
                    == MappingDirection::Bidirectional
            };
            if mapping.enabled && direction_fits {
                let pattern_chars = chars_of(mapping.source_topic.as_str());
                let pattern_parts = split_chars(&pattern_chars, '/');
                if match_tokens(&pattern_parts, &source_parts) {
                    let template_chars = chars_of(mapping.target_topic.as_str());
                    let rewritten = rewrite_chars(&pattern_chars, &template_chars, &source_chars);
                    return Some(string_of(&rewritten));
                }
            }
            i = i + 1;
        }
        None
    }

    /// The ZeroMQ topic for an MQTT topic: the rewrite by the first enabled
    /// mapping that forwards from MQTT and whose pattern the topic matches.
    pub fn map_mqtt_to_zmq(&self, source_topic: &str) -> (target: Option<String>)
        ensures
            optional_view(target) == first_rewrite(self@, true, source_topic@),
    {
        self.map_topic(source_topic, true)
    }

    /// The MQTT topic for a ZeroMQ topic: the rewrite by the first enabled
    /// mapping that forwards from ZeroMQ and whose pattern the topic matches.
    pub fn map_zmq_to_mqtt(&self, source_topic: &str) -> (target: Option<String>)
        ensures
            optional_view(target) == first_rewrite(self@, false, source_topic@),
    {
        self.map_topic(source_topic, false)
    }
}

} // verus!
