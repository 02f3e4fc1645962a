//! Tagging of uploaded images by a vision model.

use vstd::prelude::*;
use vstd::utf8::{encode_utf8, is_ascii_chars, is_ascii_chars_encode_utf8};

use crate::media::{base64_encode, base64_text, json_member, json_text_member};
use crate::reply::{status_line, status_number, status_reason, status_text};
use crate::store::{Query, Statement};
use crate::tags::TagLink;
use crate::text::{
    ascii_lowercase, ascii_small, contains_char, is_white_space, joined,
    law_joined_list_grows, law_split_undoes_join, law_trimming_leaves_the_core,
    lemma_pieces_are_separated, lemma_pieces_around_separator, lowercase, pieces, split, trim,
    trim_end, trim_start, trimmed, views,
};

verus! {

/// Where the vision model is asked.
pub const GENERATE_URL: &'static str = "http://127.0.0.1:11434/api/generate";

/// The model that is asked.
pub const MODEL: &'static str = "llava";

/// What the model is asked.
pub const PROMPT: &'static str =
    "Analyze this image and return a comma-separated list of 3-5 very short, single-word descriptive tags. No uppercase letters. For example: cat, animal, pet, cute";

/// The body of the request to the model.
#[derive(Debug)]
pub struct GenerateRequest {
    pub model: String,
    pub prompt: String,
    pub stream: bool,
    pub images: Vec<String>,
}

/// Why an image could not be tagged.
#[derive(Debug)]
pub enum TaggingError {
    /// The model answered with a failure.
    Refused { status: u16, body: String },
    /// The answer of the model is not JSON.
    Malformed,
}

/// What is reported of an answer with a failure.
pub open spec fn refusal_text(status: Seq<char>, body: Seq<char>) -> Seq<char> {
    "Ollama API error "@ + status + ": "@ + body
}

impl TaggingError {
    /// What is reported of the error, where `status` is the status of the answer written out.
    pub fn text(&self, status: &str) -> (text: String)
        ensures
            text@ == (match *self {
                TaggingError::Refused { body, .. } => refusal_text(status@, body@),
                TaggingError::Malformed => "error decoding response body"@,
            }),
            *self matches TaggingError::Refused { body, .. } ==> text@ == "Ollama API error "@
                + status@ + ": "@ + body@,
    {
        match self {
            TaggingError::Refused { status: _, body } => "Ollama API error ".to_owned().concat(
                status,
            ).concat(": ").concat(body.as_str()),
            TaggingError::Malformed => "error decoding response body".to_owned(),
        }
    }

    /// What is reported of the error; nothing where its status is not an HTTP status.
    pub fn message(&self) -> (message: Option<String>)
        ensures
            match *self {
                TaggingError::Refused { status, body } => if 100 <= status <= 999 {
                    &&& message is Some
                    &&& message->Some_0@ == refusal_text(status_text(status), body@)
                    &&& message->Some_0@ == "Ollama API error "@ + (status_number(status)
                        + status_reason(status)) + ": "@ + body@
                    &&& status == 500 ==> message->Some_0@ == refusal_text(
                        "500 Internal Server Error"@,
                        body@,
                    )
                } else {
                    message is None
                },
                TaggingError::Malformed => message is Some && message->Some_0@
                    == "error decoding response body"@,
            },
    {
        match self {
            TaggingError::Refused { status, body: _ } => match status_line(*status) {
                Some(line) => Some(self.text(line.as_str())),
                None => None,
            },
            TaggingError::Malformed => Some(self.text("")),
        }
    }
}

/// The first `n` elements of a list, or all of it where it is shorter.
pub open spec fn at_most<A>(list: Seq<A>, n: int) -> Seq<A> {
    if list.len() <= n {
        list
    } else {
        list.take(n)
    }
}

/// Whether a word of the model's answer is taken as a tag: a single word of less than 20 bytes.
pub open spec fn is_suggestion(word: Seq<char>) -> bool {
    word.len() > 0 && !word.contains(' ') && encode_utf8(word).len() < 20
}

/// The words of the model's answer: what stands between its commas, without white space around it.
pub open spec fn answer_words(answer: Seq<char>) -> Seq<Seq<char>> {
    pieces(answer, ',').map_values(|piece: Seq<char>| trimmed(piece))
}

/// The words of the model's answer that are taken as tags: the first five acceptable ones.
pub open spec fn taken_words(answer: Seq<char>) -> Seq<Seq<char>> {
    at_most(answer_words(answer).filter(|word: Seq<char>| is_suggestion(word)), 5)
}

/// The tags that an answer of the model stands for: the words that are taken, in lower case.
pub open spec fn suggested_tags(answer: Seq<char>) -> Seq<Seq<char>> {
    taken_words(answer).map_values(|word: Seq<char>| lowercase(word))
}

/// Starts the tagging of an image from the contents of its file: the request that is sent to the
/// model at `GENERATE_URL`. The Base64 form of the contents must fit in a `String`.
pub fn auto_tag_image(contents: &[u8]) -> (request: GenerateRequest)
    requires
        4 * ((contents@.len() + 2) / 3) <= isize::MAX,
    ensures
        request.model@ == MODEL@,
        request.prompt@ == PROMPT@,
        !request.stream,
        views(request.images@) == seq![base64_text(contents@)],
{
    let image = base64_encode(contents);
    let images: Vec<String> = vec![image];
    assert(views(images@) =~= seq![base64_text(contents@)]);
    GenerateRequest { model: MODEL.to_owned(), prompt: PROMPT.to_owned(), stream: false, images }
}

/// Whether the status of the model's answer tells success; only then its body is read as JSON.
pub fn answer_succeeded(status: u16) -> (success: bool)
    ensures
        success == (200 <= status < 300),
{
    200 <= status && status < 300
}

/// Ends a tagging that the model refused, with the text of its answer where it could be read.
pub fn answer_refused(status: u16, body: Option<String>) -> (failure: TaggingError)
    ensures
        failure is Refused,
        failure->status == status,
        failure->body@ == (match body {
            Some(text) => text@,
            None => "Unknown error body"@,
        }),
{
    match body {
        Some(text) => TaggingError::Refused { status, body: text },
        None => TaggingError::Refused { status, body: "Unknown error body".to_owned() },
    }
}

fn accepts_word(word: &str) -> (accepted: bool)
    ensures
        accepted == is_suggestion(word@),
{
    !word.is_empty() && !contains_char(word, ' ') && word.as_bytes().len() < 20
}

/// Whether `tag` is what the word `word` becomes, in so far as the word is ASCII: its letters `A`
/// to `Z` become small, and no space and no comma is in it.
pub open spec fn is_plain_tag(tag: Seq<char>, word: Seq<char>) -> bool {
    is_ascii_chars(word) ==> tag == ascii_lowercase(word) && !tag.contains(' ') && !tag.contains(
        ',',
    )
}

proof fn lemma_trimmed_is_part(text: Seq<char>, c: char)
    requires
        trimmed(text).contains(c),
    ensures
        text.contains(c),
{
    lemma_trim_end_is_part(trim_start(text), c);
    lemma_trim_start_is_part(text, c);
}

proof fn lemma_trim_start_is_part(text: Seq<char>, c: char)
    requires
        trim_start(text).contains(c),
    ensures
        text.contains(c),
    decreases text.len(),
{
    if text.len() > 0 && is_white_space(text.first()) {
        lemma_trim_start_is_part(text.drop_first(), c);
        let k = choose|k: int| 0 <= k < text.len() - 1 && text.drop_first()[k] == c;
        assert(text[k + 1] == c);
    }
}

proof fn lemma_trim_end_is_part(text: Seq<char>, c: char)
    requires
        trim_end(text).contains(c),
    ensures
        text.contains(c),
    decreases text.len(),
{
    if text.len() > 0 && is_white_space(text.last()) {
        lemma_trim_end_is_part(text.drop_last(), c);
        let k = choose|k: int| 0 <= k < text.len() - 1 && text.drop_last()[k] == c;
        assert(text[k] == c);
    }
}

/// A word that is taken holds no space and no comma, and in small letters still none.
proof fn lemma_taken_word_is_single(answer: Seq<char>, i: int)
    requires
        0 <= i < taken_words(answer).len(),
    ensures
        !ascii_lowercase(taken_words(answer)[i]).contains(' '),
        !ascii_lowercase(taken_words(answer)[i]).contains(','),
{
    let word = taken_words(answer)[i];
    let k = lemma_filtered_element(
        answer_words(answer),
        |word: Seq<char>| is_suggestion(word),
        i,
    );
    lemma_pieces_are_separated(answer, ',');
    assert(!word.contains(',')) by {
        if word.contains(',') {
            lemma_trimmed_is_part(pieces(answer, ',')[k], ',');
        }
    }
    let small = ascii_lowercase(word);
    assert forall|j: int| 0 <= j < small.len() implies small[j] != ' ' && small[j] != ',' by {
        assert(small[j] == ascii_small(word[j]));
        assert(word.contains(word[j]));
    }
}

/// The tags that an answer of the model stands for. Of an ASCII word the tag is plain.
pub fn select_tags(answer: &str) -> (tags: Vec<String>)
    ensures
        views(tags@) == suggested_tags(answer@),
        tags@.len() == taken_words(answer@).len(),
        forall|i: int|
            0 <= i < tags@.len() ==> is_plain_tag(
                (#[trigger] tags@[i])@,
                taken_words(answer@)[i],
            ),
        forall|i: int|
            0 <= i < tags@.len() ==> (#[trigger] tags@[i])@ == lowercase(taken_words(answer@)[i]),
        // Plain words are all taken, the first five of them, in small letters.
        forall|words: Seq<Seq<char>>|
            #![trigger joined(words, ',')]
            words.len() > 0 && answer@ == joined(words, ',') && (forall|i: int|
                0 <= i < words.len() ==> 0 < (#[trigger] words[i]).len() < 20) && (forall|
                i: int,
                j: int,
            |
                0 <= i < words.len() && 0 <= j < words[i].len() ==> '!' <= #[trigger] words[i][j]
                    <= '~' && words[i][j] != ',') ==> tags@.len() == (if words.len() < 5 {
                words.len()
            } else {
                5
            }) && forall|i: int|
                0 <= i < tags@.len() ==> (#[trigger] tags@[i])@ == ascii_lowercase(words[i]),
{
    let parts = split(answer, ',');
    let ghost words = answer_words(answer@);
    let ghost taken = |word: Seq<char>| is_suggestion(word);
    let ghost small = |word: Seq<char>| lowercase(word);
    let mut tags: Vec<String> = Vec::new();
    let mut i: usize = 0;
    proof {
        reveal(Seq::filter);
        assert(words.take(0).filter(taken) =~= Seq::<Seq<char>>::empty());
        assert(views(tags@) =~= at_most(words.take(0).filter(taken), 5).map_values(small));
    }
    while i < parts.len()
        invariant
            i <= parts@.len() == words.len(),
            views(parts@) == pieces(answer@, ','),
            words == answer_words(answer@),
            taken == (|word: Seq<char>| is_suggestion(word)),
            small == (|word: Seq<char>| lowercase(word)),
            tags@.len() <= 5,
            views(tags@) == at_most(words.take(i as int).filter(taken), 5).map_values(small),
            forall|k: int|
                0 <= k < tags@.len() && is_ascii_chars(
                    at_most(words.take(i as int).filter(taken), 5)[k],
                ) ==> (#[trigger] tags@[k])@ == ascii_lowercase(
                    at_most(words.take(i as int).filter(taken), 5)[k],
                ),
        decreases parts@.len() - i,
    {
        let word = trim(parts[i].as_str());
        let ghost before = words.take(i as int).filter(taken);
        let ghost done = views(tags@);
        proof {
            assert(views(parts@)[i as int] == parts@[i as int]@);
            assert(word@ == words[i as int]);
            assert(words.take(i + 1).drop_last() =~= words.take(i as int));
            reveal(Seq::filter);
        }
        if accepts_word(word.as_str()) {
            if tags.len() < 5 {
                tags.push(word.as_str().to_lowercase());
                assert(views(tags@) =~= done.push(lowercase(word@)));
            }
            assert(views(tags@) =~= at_most(before.push(word@), 5).map_values(small));
            assert forall|k: int|
                0 <= k < tags@.len() && is_ascii_chars(at_most(before.push(word@), 5)[k]) implies (
            #[trigger] tags@[k])@ == ascii_lowercase(at_most(before.push(word@), 5)[k]) by {
                if k < done.len() {
                    assert(at_most(before.push(word@), 5)[k] == at_most(before, 5)[k]);
                }
            }
        }
        i = i + 1;
    }
    proof {
        assert(words.take(words.len() as int) =~= words);
        assert(views(tags@).len() == taken_words(answer@).len());
        assert forall|k: int| 0 <= k < tags@.len() implies is_plain_tag(
            (#[trigger] tags@[k])@,
            taken_words(answer@)[k],
        ) by {
            lemma_taken_word_is_single(answer@, k);
        }
        assert forall|k: int| 0 <= k < tags@.len() implies (#[trigger] tags@[k])@ == lowercase(
            taken_words(answer@)[k],
        ) by {
            assert(views(tags@)[k] == suggested_tags(answer@)[k]);
        }
        assert forall|words: Seq<Seq<char>>|
            #![trigger joined(words, ',')]
            words.len() > 0 && answer@ == joined(words, ',') && (forall|i: int|
                0 <= i < words.len() ==> 0 < (#[trigger] words[i]).len() < 20) && (forall|
                i: int,
                j: int,
            |
                0 <= i < words.len() && 0 <= j < words[i].len() ==> '!' <= #[trigger] words[i][j]
                    <= '~' && words[i][j] != ',') implies tags@.len() == (if words.len() < 5 {
            words.len()
        } else {
            5
        }) && forall|i: int|
            0 <= i < tags@.len() ==> (#[trigger] tags@[i])@ == ascii_lowercase(words[i]) by {
            assert forall|k: int| 0 <= k < views(tags@).len() implies is_plain_tag(
                #[trigger] views(tags@)[k],
                taken_words(answer@)[k],
            ) by {
                assert(views(tags@)[k] == tags@[k]@);
            }
            lemma_tags_of_plain_words(words, views(tags@));
            assert forall|k: int| 0 <= k < tags@.len() implies (#[trigger] tags@[k])@
                == ascii_lowercase(words[k]) by {
                assert(views(tags@)[k] == tags@[k]@);
            }
        }
    }
    tags
}

/// Goes on with the JSON body of the model's answer: the tags in its `response`, none where there
/// is no such text.
pub fn generated_tags(body: &[u8]) -> (tags: Result<Vec<String>, TaggingError>)
    ensures
        match json_text_member(body@, "response"@) {
            None => tags == Err::<Vec<String>, TaggingError>(TaggingError::Malformed),
            Some(None) => {
                &&& tags is Ok
                &&& views(tags->Ok_0@) == suggested_tags(Seq::empty())
                &&& tags->Ok_0@.len() == 0
            },
            Some(Some(answer)) => {
                &&& tags is Ok
                &&& views(tags->Ok_0@) == suggested_tags(answer)
                &&& tags->Ok_0@.len() == taken_words(answer).len()
                &&& forall|i: int|
                    0 <= i < tags->Ok_0@.len() ==> is_plain_tag(
                        (#[trigger] tags->Ok_0@[i])@,
                        taken_words(answer)[i],
                    )
                &&& forall|i: int|
                    0 <= i < tags->Ok_0@.len() ==> (#[trigger] tags->Ok_0@[i])@ == lowercase(
                        taken_words(answer)[i],
                    )
            },
        },
{
    proof {
        let empty = Seq::<char>::empty();
        law_trimming_leaves_the_core(empty, empty, empty);
        assert(empty + empty + empty =~= empty);
        law_answer_is_read_piece_by_piece(empty, empty);
    }
    match json_member(body, "response") {
        Err(_) => Err(TaggingError::Malformed),
        Ok(None) => Ok(select_tags(String::new().as_str())),
        Ok(Some(answer)) => Ok(select_tags(answer.as_str())),
    }
}

/// The tags that are still to be put on an image.
#[derive(Debug)]
pub struct TagQueue {
    pub image_id: i64,
    pub tags: Vec<String>,
}

impl TagQueue {
    /// Takes the next tag, which is created unless there is one of its name. Its `TagLink` goes on
    /// as for a tag added by hand; a failure of the store ends the tagging.
    pub fn next(&mut self) -> (asked: Option<(Query, TagLink)>)
        ensures
            final(self).image_id == old(self).image_id,
            if old(self).tags@.len() == 0 {
                asked is None && final(self).tags@ == old(self).tags@
            } else {
                &&& asked is Some
                &&& asked->Some_0.0@ == (Statement::AddTag { name: old(self).tags@[0]@ })
                &&& asked->Some_0.1.image_id == old(self).image_id
                &&& asked->Some_0.1.name@ == old(self).tags@[0]@
                &&& final(self).tags@ == old(self).tags@.drop_first()
            },
    {
        if self.tags.len() == 0 {
            return None;
        }
        let name = self.tags.remove(0);
        assert(self.tags@ =~= old(self).tags@.drop_first());
        Some(
            (
                Statement::AddTag { name: name.clone() },
                TagLink { image_id: self.image_id, name },
            ),
        )
    }
}

/// Element `i` of a filtered list stands somewhere in the list and satisfies the filter.
proof fn lemma_filtered_element(
    list: Seq<Seq<char>>,
    taken: spec_fn(Seq<char>) -> bool,
    i: int,
) -> (k: int)
    requires
        0 <= i < list.filter(taken).len(),
    ensures
        0 <= k < list.len(),
        list[k] == list.filter(taken)[i],
        taken(list[k]),
    decreases list.len(),
{
    reveal(Seq::filter);
    let front = list.drop_last();
    if i < front.filter(taken).len() {
        lemma_filtered_element(front, taken, i)
    } else {
        list.len() - 1
    }
}

/// Whether word `k` of an answer is acceptable and `tag` is its lower-case form.
pub open spec fn suggests(answer: Seq<char>, k: int, tag: Seq<char>) -> bool {
    &&& 0 <= k < answer_words(answer).len()
    &&& is_suggestion(answer_words(answer)[k])
    &&& tag == lowercase(answer_words(answer)[k])
}

/// Whether `tag` is the lower-case form of an acceptable word of an answer.
pub open spec fn is_suggested(answer: Seq<char>, tag: Seq<char>) -> bool {
    exists|k: int| suggests(answer, k, tag)
}

/// The model puts at most five tags on an image, and each is the lower-case form of a single word
/// of less than 20 bytes that stands in its answer.
pub proof fn law_suggestions_are_few_and_short(answer: Seq<char>)
    ensures
        suggested_tags(answer).len() <= 5,
        forall|i: int|
            0 <= i < suggested_tags(answer).len() ==> is_suggested(
                answer,
                #[trigger] suggested_tags(answer)[i],
            ),
{
    let taken = |word: Seq<char>| is_suggestion(word);
    assert forall|i: int| 0 <= i < suggested_tags(answer).len() implies is_suggested(
        answer,
        #[trigger] suggested_tags(answer)[i],
    ) by {
        let k = lemma_filtered_element(answer_words(answer), taken, i);
        assert(suggests(answer, k, suggested_tags(answer)[i]));
    }
}

/// An answer grows piece by piece: what is added behind a comma is one more tag exactly where, with
/// the white space around it taken away, it is not empty, holds no space and has less than 20
/// bytes, and fewer than five tags stand before it. Otherwise it changes nothing.
pub proof fn law_answer_is_read_piece_by_piece(answer: Seq<char>, piece: Seq<char>)
    requires
        !piece.contains(','),
    ensures
        ({
            let word = trimmed(piece);
            let acceptable = word.len() > 0 && !word.contains(' ') && encode_utf8(word).len() < 20;
            &&& taken_words(piece) == (if acceptable {
                seq![word]
            } else {
                Seq::empty()
            })
            &&& taken_words(answer + seq![','] + piece) == (if acceptable && taken_words(
                answer,
            ).len() < 5 {
                taken_words(answer).push(word)
            } else {
                taken_words(answer)
            })
        }),
{
    let word = trimmed(piece);
    let taken = |word: Seq<char>| is_suggestion(word);
    law_split_undoes_join(seq![piece], ',');
    assert(pieces(piece, ',') == seq![piece]);
    assert(answer_words(piece) =~= seq![word]);
    reveal(Seq::filter);
    assert(seq![word].drop_last() =~= Seq::<Seq<char>>::empty());
    assert(Seq::<Seq<char>>::empty().filter(taken) =~= Seq::<Seq<char>>::empty());
    assert(seq![word].filter(taken) =~= (if is_suggestion(word) {
        seq![word]
    } else {
        Seq::empty()
    }));
    let whole = answer + seq![','] + piece;
    assert(whole =~= answer.push(',') + piece);
    lemma_pieces_around_separator(answer, piece, ',');
    assert(answer_words(whole) =~= answer_words(answer).push(word));
    assert(answer_words(answer).push(word).drop_last() =~= answer_words(answer));
    let before = answer_words(answer).filter(taken);
    assert(at_most(before.push(word), 5) =~= (if before.len() < 5 {
        at_most(before, 5).push(word)
    } else {
        at_most(before, 5)
    }));
}

/// Whatever is taken from an answer is not empty, holds no space and has less than 20 bytes.
pub proof fn law_taken_words_are_single_and_short(answer: Seq<char>, i: int)
    requires
        0 <= i < taken_words(answer).len(),
    ensures
        taken_words(answer).len() <= 5,
        taken_words(answer)[i].len() > 0,
        !taken_words(answer)[i].contains(' '),
        encode_utf8(taken_words(answer)[i]).len() < 20,
{
    let k = lemma_filtered_element(
        answer_words(answer),
        |word: Seq<char>| is_suggestion(word),
        i,
    );
}

/// A list of words is taken as it is given: each of the first five words, in order and complete,
/// where every word is made of visible ASCII characters other than the comma and has at least one
/// and less than 20 of them.
pub proof fn law_plain_words_are_all_taken(words: Seq<Seq<char>>)
    requires
        words.len() > 0,
        forall|i: int| 0 <= i < words.len() ==> 0 < (#[trigger] words[i]).len() < 20,
        forall|i: int, j: int|
            0 <= i < words.len() && 0 <= j < words[i].len() ==> '!' <= #[trigger] words[i][j] <= '~'
                && words[i][j] != ',',
    ensures
        words.len() <= 5 ==> taken_words(joined(words, ',')) == words,
        words.len() > 5 ==> taken_words(joined(words, ',')) == words.take(5),
    decreases words.len(),
{
    let front = words.drop_last();
    let word = words.last();
    let empty = Seq::<char>::empty();
    assert(word == words[words.len() - 1]);
    assert forall|j: int| 0 <= j < word.len() implies '!' <= #[trigger] word[j] <= '~' && word[j]
        != ',' by {
        assert('!' <= words[words.len() - 1][j] <= '~');
    }
    assert(!is_white_space(word[0]) && !is_white_space(word[word.len() - 1]));
    law_trimming_leaves_the_core(empty, word, empty);
    assert(empty + word + empty =~= word);
    assert(is_ascii_chars(word));
    is_ascii_chars_encode_utf8(word);
    law_answer_is_read_piece_by_piece(joined(front, ','), word);
    law_joined_list_grows(front, word, ',');
    assert(front.push(word) =~= words);
    if front.len() == 0 {
        assert(words =~= seq![word]);
    } else {
        assert forall|i: int| 0 <= i < front.len() implies 0 < (#[trigger] front[i]).len() < 20 by {
            assert(front[i] == words[i]);
        }
        assert forall|i: int, j: int|
            0 <= i < front.len() && 0 <= j < front[i].len() implies '!' <= #[trigger] front[i][j]
            <= '~' && front[i][j] != ',' by {
            assert('!' <= words[i][j] <= '~');
        }
        law_plain_words_are_all_taken(front);
        if words.len() > 5 {
            assert(words.take(5) =~= if front.len() > 5 { front.take(5) } else { front });
        }
    }
}

/// The tags made of a list of plain words are these words in small letters, the first five of them.
proof fn lemma_tags_of_plain_words(words: Seq<Seq<char>>, tags: Seq<Seq<char>>)
    requires
        words.len() > 0,
        forall|i: int| 0 <= i < words.len() ==> 0 < (#[trigger] words[i]).len() < 20,
        forall|i: int, j: int|
            0 <= i < words.len() && 0 <= j < words[i].len() ==> '!' <= #[trigger] words[i][j] <= '~'
                && words[i][j] != ',',
        tags.len() == taken_words(joined(words, ',')).len(),
        forall|i: int|
            0 <= i < tags.len() ==> is_plain_tag(
                #[trigger] tags[i],
                taken_words(joined(words, ','))[i],
            ),
    ensures
        tags.len() == (if words.len() < 5 { words.len() } else { 5 }),
        forall|i: int| 0 <= i < tags.len() ==> #[trigger] tags[i] == ascii_lowercase(words[i]),
{
    law_plain_words_are_all_taken(words);
    assert forall|i: int| 0 <= i < tags.len() implies #[trigger] tags[i] == ascii_lowercase(
        words[i],
    ) by {
        assert(taken_words(joined(words, ','))[i] == words[i]);
        assert forall|j: int| 0 <= j < words[i].len() implies '\0' <= #[trigger] words[i][j]
            <= '\u{7f}' by {
            assert('!' <= words[i][j] <= '~');
        }
        assert(is_ascii_chars(words[i]));
    }
}

} // verus!
