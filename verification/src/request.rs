//! Requests: built from a command and its `key=value` tokens, encoded as one line.

use vstd::prelude::*;
use crate::json::{
    compact_text, json_of, members_of, object_insert, object_new, value_from_bool,
    value_from_object, value_from_text, write_compact, error_message, Json,
};
use crate::outcome::{written, Failure, FailureView};
use crate::text::{
    find_char, first_index, is_first_index, lemma_first_index_found, lemma_first_index_unique,
};

verus! {

/// A token split at its first `=` into key and value; nothing for a token without `=`.
pub open spec fn split_token(token: Seq<char>) -> Option<(Seq<char>, Seq<char>)> {
    match first_index(token, '=') {
        Some(at) => Some((token.subrange(0, at), token.subrange(at + 1, token.len() as int))),
        None => None,
    }
}

/// The mapping without arguments.
pub open spec fn no_arguments() -> Map<Seq<char>, Seq<char>> {
    Map::empty()
}

/// The mapping that a list of tokens denotes: each token with a `=` binds its
/// key to its value, a later token overriding an earlier one with the same
/// key; tokens without `=` bind nothing.
pub open spec fn arguments_of(tokens: Seq<Seq<char>>) -> Map<Seq<char>, Seq<char>>
    decreases tokens.len(),
{
    if tokens.len() == 0 {
        no_arguments()
    } else {
        let earlier = arguments_of(tokens.drop_last());
        match split_token(tokens.last()) {
            Some((key, value)) => earlier.insert(key, value),
            None => earlier,
        }
    }
}

/// The characters of each of a list of strings.
pub open spec fn token_texts(tokens: Seq<String>) -> Seq<Seq<char>> {
    Seq::new(tokens.len(), |i: int| tokens[i]@)
}

/// A mapping of strings as the members of a JSON object.
pub open spec fn argument_documents(arguments: Map<Seq<char>, Seq<char>>) -> Map<Seq<char>, Json> {
    Map::new(|key: Seq<char>| arguments.contains_key(key), |key: Seq<char>| Json::Text(arguments[key]))
}

/// The strings that the members of a JSON object hold.
pub open spec fn argument_texts(members: Map<Seq<char>, Json>) -> Map<Seq<char>, Seq<char>> {
    Map::new(|key: Seq<char>| members.contains_key(key), |key: Seq<char>| members[key]->Text_0)
}

/// A request as a mathematical value.
pub struct RequestView {
    pub request: Seq<char>,
    pub arguments: Map<Seq<char>, Seq<char>>,
    pub keepalive: bool,
}

impl RequestView {
    /// The JSON document that goes over the wire for this request.
    pub open spec fn document(self) -> Json {
        Json::Object(
            Map::empty().insert("request"@, Json::Text(self.request)).insert(
                "arguments"@,
                Json::Object(argument_documents(self.arguments)),
            ).insert("keepalive"@, Json::Boolean(self.keepalive)),
        )
    }
}

/// The request that a JSON document holds, if it has the shape of one.
pub open spec fn request_in(document: Json) -> Option<RequestView> {
    match (document.member("request"@), document.member("arguments"@), document.member("keepalive"@)) {
        (Some(Json::Text(request)), Some(Json::Object(members)), Some(Json::Boolean(keepalive))) => {
            if forall|key: Seq<char>| members.contains_key(key) ==> members[key] is Text {
                Some(RequestView { request, arguments: argument_texts(members), keepalive })
            } else {
                None
            }
        },
        _ => None,
    }
}

/// One request to the daemon.
pub struct Request {
    request: String,
    arguments: serde_json::Map<String, serde_json::Value>,
    keepalive: bool,
}

impl View for Request {
    type V = RequestView;

    closed spec fn view(&self) -> RequestView {
        RequestView {
            request: self.request@,
            arguments: argument_texts(members_of(self.arguments)),
            keepalive: self.keepalive,
        }
    }
}

/// Splits a token at its first `=`.
pub fn split_key_value(token: &str) -> (parts: Option<(String, String)>)
    ensures
        match parts {
            Some((key, value)) => split_token(token@) == Some((key@, value@)),
            None => split_token(token@) is None,
        },
{
    match find_char(token, '=') {
        Some(at) => {
            let length = token.unicode_len();
            proof {
                lemma_first_index_found(token@, '=');
            }
            let key = token.substring_char(0, at).to_owned();
            let value = token.substring_char(at + 1, length).to_owned();
            Some((key, value))
        },
        None => None,
    }
}

impl Request {
    #[verifier::type_invariant]
    spec fn arguments_are_strings(&self) -> bool {
        forall|key: Seq<char>| #[trigger]
            members_of(self.arguments).contains_key(key) ==> members_of(self.arguments)[key] is Text
    }

    /// The request for `command` with the arguments that `tokens` denote.
    pub fn new(command: &str, tokens: &[String]) -> (request: Request)
        ensures
            request@ == (RequestView {
                request: command@,
                arguments: arguments_of(token_texts(tokens@)),
                keepalive: false,
            }),
    {
        let arguments = collect_arguments(tokens, 0);
        proof {
            let texts = token_texts(tokens@);
            assert(texts.subrange(0, texts.len() as int) =~= texts);
            lemma_texts_of_documents(arguments_of(texts));
        }
        Request { request: command.to_owned(), arguments, keepalive: false }
    }

    /// The request that the free arguments of a command line denote: the first
    /// names the command, the others are its tokens. Without a first argument
    /// there is no request.
    pub fn from_arguments(free: &[String]) -> (request: Option<Request>)
        ensures
            match request {
                Some(made) => free@.len() > 0 && made@ == (RequestView {
                    request: free@[0]@,
                    arguments: arguments_of(token_texts(free@).subrange(1, free@.len() as int)),
                    keepalive: false,
                }),
                None => free@.len() == 0,
            },
    {
        if free.len() == 0 {
            return None;
        }
        let arguments = collect_arguments(free, 1);
        proof {
            lemma_texts_of_documents(
                arguments_of(token_texts(free@).subrange(1, free@.len() as int)),
            );
        }
        Some(Request { request: free[0].clone(), arguments, keepalive: false })
    }

    /// The name of the command.
    pub fn command(&self) -> (name: &str)
        ensures
            name@ == self@.request,
    {
        self.request.as_str()
    }

    /// Whether the connection is to stay open after the reply.
    pub fn keepalive(&self) -> (flag: bool)
        ensures
            flag == self@.keepalive,
    {
        self.keepalive
    }

    /// The JSON value that goes over the wire for this request.
    pub fn into_value(self) -> (value: serde_json::Value)
        ensures
            json_of(value) == self@.document(),
    {
        proof {
            use_type_invariant(&self);
            assert(members_of(self.arguments) =~= argument_documents(
                argument_texts(members_of(self.arguments)),
            ));
        }
        let mut object = object_new();
        object_insert(&mut object, "request".to_owned(), value_from_text(self.request));
        object_insert(&mut object, "arguments".to_owned(), value_from_object(self.arguments));
        object_insert(&mut object, "keepalive".to_owned(), value_from_bool(self.keepalive));
        value_from_object(object)
    }

    /// The line to send: the request as single-line JSON, then one newline.
    pub fn encode(self) -> (line: Result<String, Failure>)
        ensures
            line matches Ok(text) && text@ == request_line(self@),
    {
        let value = self.into_value();
        match write_compact(&value) {
            Ok(text) => written(Ok(text)),
            Err(error) => written(Err(error_message(&error))),
        }
    }
}

/// The line that carries a request: its document as single-line JSON, then one newline.
pub open spec fn request_line(request: RequestView) -> Seq<char> {
    compact_text(request.document()) + "\n"@
}

/// The object with the arguments that the tokens from position `start` on denote.
fn collect_arguments(tokens: &[String], start: usize) -> (arguments: serde_json::Map<String, serde_json::Value>)
    requires
        start <= tokens@.len(),
    ensures
        members_of(arguments) == argument_documents(
            arguments_of(token_texts(tokens@).subrange(start as int, tokens@.len() as int)),
        ),
{
    let ghost texts = token_texts(tokens@);
    let mut arguments = object_new();
    let mut index: usize = start;
    proof {
        assert(members_of(arguments) =~= argument_documents(
            arguments_of(texts.subrange(start as int, start as int)),
        ));
    }
    while index < tokens.len()
        invariant
            start <= index <= tokens@.len(),
            texts == token_texts(tokens@),
            members_of(arguments) == argument_documents(
                arguments_of(texts.subrange(start as int, index as int)),
            ),
        decreases tokens@.len() - index,
    {
        let ghost before = texts.subrange(start as int, index as int);
        let ghost after = texts.subrange(start as int, index + 1);
        proof {
            assert(after.drop_last() =~= before);
            assert(after.last() == tokens@[index as int]@);
        }
        match split_key_value(tokens[index].as_str()) {
            Some((key, value)) => {
                object_insert(&mut arguments, key, value_from_text(value));
                proof {
                    assert(members_of(arguments) =~= argument_documents(arguments_of(after)));
                }
            },
            None => {},
        }
        index += 1;
    }
    arguments
}

/// Reading the strings back out of a mapping written as JSON members gives the mapping.
pub proof fn lemma_texts_of_documents(arguments: Map<Seq<char>, Seq<char>>)
    ensures
        argument_texts(argument_documents(arguments)) == arguments,
{
    assert(argument_texts(argument_documents(arguments)) =~= arguments);
}

/// Tokens of which none holds a `=` denote no arguments at all.
pub proof fn lemma_tokens_without_separator_bind_nothing(tokens: Seq<Seq<char>>)
    requires
        forall|i: int| 0 <= i < tokens.len() ==> !tokens[i].contains('='),
    ensures
        arguments_of(tokens) == no_arguments(),
    decreases tokens.len(),
{
    if tokens.len() > 0 {
        assert(!tokens[tokens.len() - 1].contains('='));
        assert forall|i: int| 0 <= i < tokens.drop_last().len() implies !tokens.drop_last()[i].contains(
            '=',
        ) by {
            assert(tokens.drop_last()[i] == tokens[i]);
        }
        lemma_tokens_without_separator_bind_nothing(tokens.drop_last());
    }
}

/// A token with a key and a value binds the key to the value, in place of
/// whatever an earlier token bound it to, and leaves the other keys as they were.
pub proof fn lemma_later_token_wins(tokens: Seq<Seq<char>>, key: Seq<char>, value: Seq<char>)
    requires
        !key.contains('='),
    ensures
        arguments_of(tokens.push(key + seq!['='] + value)) == arguments_of(tokens).insert(key, value),
{
    let token = key + seq!['='] + value;
    lemma_split_at_first_separator(key, value);
    assert(tokens.push(token).drop_last() =~= tokens);
}

/// A token splits exactly where it holds a `=`, and then into the key before
/// its first `=`, which holds none, and the value after it: the token is the
/// key, a `=` and the value.
pub proof fn lemma_split_parts(token: Seq<char>)
    ensures
        match split_token(token) {
            Some((key, value)) => token == key + seq!['='] + value && !key.contains('='),
            None => !token.contains('='),
        },
{
    if token.contains('=') {
        lemma_first_index_found(token, '=');
        let at = first_index(token, '=')->0;
        let key = token.subrange(0, at);
        let value = token.subrange(at + 1, token.len() as int);
        assert(token =~= key + seq!['='] + value);
        if key.contains('=') {
            let j = choose|j: int| 0 <= j < key.len() && key[j] == '=';
            assert(token[j] == '=');
        }
    }
}

/// A key without `=`, a `=` and any value make a token that splits into that
/// key and that value, whatever further `=` the value holds.
pub proof fn lemma_split_at_first_separator(key: Seq<char>, value: Seq<char>)
    requires
        !key.contains('='),
    ensures
        split_token(key + seq!['='] + value) == Some((key, value)),
{
    let token = key + seq!['='] + value;
    let at = key.len() as int;
    assert(token[at] == '=');
    assert forall|j: int| 0 <= j < at implies token[j] != '=' by {
        assert(token[j] == key[j]);
        assert(key.contains(key[j]));
    }
    assert(is_first_index(token, '=', at));
    lemma_first_index_unique(token, '=', at);
    assert(token.subrange(0, at) =~= key);
    assert(token.subrange(at + 1, token.len() as int) =~= value);
}

/// The document of a request holds that request: reading the command, the
/// arguments and the keepalive flag back out of it gives what went in.
pub proof fn lemma_document_holds_request(request: RequestView)
    ensures
        request_in(request.document()) == Some(request),
{
    reveal_strlit("request");
    reveal_strlit("arguments");
    reveal_strlit("keepalive");
    assert("request"@.len() == 7 && "arguments"@.len() == 9 && "keepalive"@.len() == 9);
    assert("arguments"@[0] != "keepalive"@[0]);
    let members = argument_documents(request.arguments);
    assert(argument_texts(members) =~= request.arguments);
}

} // verus!
