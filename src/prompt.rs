//! The instruction texts and the chat-completion request sent to the
//! text-generation service.
use vstd::prelude::*;
use crate::config::Config;
use crate::text::opt_text;

verus! {

/// The lower-case hexadecimal digit of `n` (below 16).
pub open spec fn hex_digit(n: u32) -> char {
    "0123456789abcdef"@[n as int]
}

/// How serde_json writes one character inside a JSON string: `"` and `\`
/// after a backslash, the short escapes for backspace, tab, line feed, form
/// feed and carriage return, `\u00XX` for the other control characters
/// below 0x20, and any other character as it is.
pub open spec fn json_char_escape(c: char) -> Seq<char> {
    let u = c as u32;
    if c == '"' {
        "\\\""@
    } else if c == '\\' {
        "\\\\"@
    } else if u == 8 {
        "\\b"@
    } else if c == '\t' {
        "\\t"@
    } else if c == '\n' {
        "\\n"@
    } else if u == 12 {
        "\\f"@
    } else if c == '\r' {
        "\\r"@
    } else if u < 0x20 {
        "\\u00"@ + seq![hex_digit(u / 16), hex_digit(u % 16)]
    } else {
        seq![c]
    }
}

/// The characters of `s`, each escaped as in a JSON string.
pub open spec fn json_escaped(s: Seq<char>) -> Seq<char>
    decreases s.len(),
{
    if s.len() == 0 {
        Seq::empty()
    } else {
        json_escaped(s.drop_last()) + json_char_escape(s.last())
    }
}

/// `s` as a JSON string literal: escaped, between double quotes.
pub open spec fn json_string(s: Seq<char>) -> Seq<char> {
    "\""@ + json_escaped(s) + "\""@
}

/// Relies on serde_json's `Display` of `Value::String`: compact JSON, which
/// for a string value is the string between double quotes, escaped by
/// serde_json's escape table as `json_char_escape` states.
#[verifier::external_body]
fn json_quote(s: &str) -> (r: String)
    ensures
        r@ == json_string(s@),
{
    serde_json::Value::String(s.to_string()).to_string()
}

/// The language whose instruction is used for codes that are not recognised.
pub open spec fn default_language() -> Seq<char> {
    "en"@
}

/// The language codes with an instruction text of their own.
pub open spec fn is_supported_language(code: Seq<char>) -> bool {
    code == "zh"@ || code == "en"@ || code == "ja"@
}

/// The system instruction for a language code: fixed content per language,
/// the default language's text for any other code.
pub open spec fn system_prompt_text(code: Seq<char>) -> Seq<char> {
    if code == "zh"@ {
        "生成精简的SVN提交信息：\n1. 控制在15字以内\n2. 只提取最核心动作和目的\n3. 忽略具体文件名和细节\n4. 不列举具体项目\n5. 不使用标点符号\n6. 严禁输出任何推理过程或解释\n7. 只输出提交信息本身，不要有其他任何内容"@
    } else if code == "ja"@ {
        "簡潔なSVNコミットメッセージ：\n1. 15字以内\n2. 核心動作と目的のみ\n3. ファイル名や詳細は無視\n4. 項目列挙禁止\n5. 句読点使用禁止\n6. 推論過程の出力は厳禁\n7. コミットメッセージのみを出力し他の内容は含めない"@
    } else {
        "Generate minimal SVN commit message:\n1. Maximum 8 words\n2. Extract only core action and purpose\n3. Ignore specific filenames and details\n4. No listing of items\n5. No punctuation\n6. Strictly forbidden to output any reasoning process\n7. Output only the commit message itself with no other content"@
    }
}

/// The user instruction: the diff, and the extra guidance as an additional
/// requirement when there is one.
pub open spec fn user_content_spec(diff: Seq<char>, extra: Option<Seq<char>>) -> Seq<char> {
    let head = "请根据以下代码变更生成提交信息：\n\n"@ + diff;
    match extra {
        Some(x) => head + "\n\n额外要求："@ + x,
        None => head,
    }
}

/// The endpoint of the chat-completion service under a base URL.
pub open spec fn chat_url_spec(base: Seq<char>) -> Seq<char> {
    base + "/v1/chat/completions"@
}

/// The authorization header value for an API key.
pub open spec fn bearer_spec(key: Seq<char>) -> Seq<char> {
    "Bearer "@ + key
}

/// The JSON body of a chat-completion request.
pub open spec fn request_body_spec(model: Seq<char>, system: Seq<char>, user: Seq<char>) -> Seq<
    char,
> {
    "{\"model\":"@ + json_string(model) + ",\"messages\":[{\"role\":\"system\",\"content\":"@
        + json_string(system) + "},{\"role\":\"user\",\"content\":"@ + json_string(user)
        + "}],\"temperature\":0.7}"@
}

/// A chat-completion request, ready to be posted.
pub struct ChatRequest {
    pub url: String,
    pub authorization: String,
    pub body: String,
}

/// The system instruction for a language code.
pub fn get_system_prompt(language: &str) -> (r: String)
    ensures
        r@ == system_prompt_text(language@),
{
    let code = String::from_str(language);
    if code == String::from_str("zh") {
        String::from_str(
            "生成精简的SVN提交信息：\n1. 控制在15字以内\n2. 只提取最核心动作和目的\n3. 忽略具体文件名和细节\n4. 不列举具体项目\n5. 不使用标点符号\n6. 严禁输出任何推理过程或解释\n7. 只输出提交信息本身，不要有其他任何内容",
        )
    } else if code == String::from_str("ja") {
        String::from_str(
            "簡潔なSVNコミットメッセージ：\n1. 15字以内\n2. 核心動作と目的のみ\n3. ファイル名や詳細は無視\n4. 項目列挙禁止\n5. 句読点使用禁止\n6. 推論過程の出力は厳禁\n7. コミットメッセージのみを出力し他の内容は含めない",
        )
    } else {
        String::from_str(
            "Generate minimal SVN commit message:\n1. Maximum 8 words\n2. Extract only core action and purpose\n3. Ignore specific filenames and details\n4. No listing of items\n5. No punctuation\n6. Strictly forbidden to output any reasoning process\n7. Output only the commit message itself with no other content",
        )
    }
}

/// Every language code has a non-empty instruction, and a code that is not
/// recognised gets the same instruction as the default language.
pub proof fn lemma_system_prompt(code: Seq<char>)
    ensures
        system_prompt_text(code).len() > 0,
        !is_supported_language(code) ==> system_prompt_text(code) == system_prompt_text(
            default_language(),
        ),
{
    reveal_strlit("zh");
    reveal_strlit("ja");
    reveal_strlit("en");
    assert("en"@[0] != "zh"@[0] && "en"@[0] != "ja"@[0]);
    reveal_strlit(
        "生成精简的SVN提交信息：\n1. 控制在15字以内\n2. 只提取最核心动作和目的\n3. 忽略具体文件名和细节\n4. 不列举具体项目\n5. 不使用标点符号\n6. 严禁输出任何推理过程或解释\n7. 只输出提交信息本身，不要有其他任何内容",
    );
    reveal_strlit(
        "簡潔なSVNコミットメッセージ：\n1. 15字以内\n2. 核心動作と目的のみ\n3. ファイル名や詳細は無視\n4. 項目列挙禁止\n5. 句読点使用禁止\n6. 推論過程の出力は厳禁\n7. コミットメッセージのみを出力し他の内容は含めない",
    );
    reveal_strlit(
        "Generate minimal SVN commit message:\n1. Maximum 8 words\n2. Extract only core action and purpose\n3. Ignore specific filenames and details\n4. No listing of items\n5. No punctuation\n6. Strictly forbidden to output any reasoning process\n7. Output only the commit message itself with no other content",
    );
}

/// The user instruction for a diff and optional extra guidance.
pub fn user_content(diff: &str, extra: &Option<String>) -> (r: String)
    ensures
        r@ == user_content_spec(diff@, opt_text(*extra)),
{
    let mut r = String::from_str("请根据以下代码变更生成提交信息：\n\n");
    r.append(diff);
    match extra {
        Some(x) => {
            r.append("\n\n额外要求：");
            r.append(x.as_str());
        },
        None => {},
    }
    r
}

/// The chat-completion request for a diff and optional extra guidance, with
/// the instruction of the configured language.
pub fn chat_request(config: &Config, diff: &str, extra: &Option<String>) -> (r: ChatRequest)
    ensures
        r.url@ == chat_url_spec(config.openai_url@),
        r.authorization@ == bearer_spec(config.openai_api_key@),
        r.body@ == request_body_spec(
            config.openai_model@,
            system_prompt_text(config.user_language@),
            user_content_spec(diff@, opt_text(*extra)),
        ),
{
    let mut url = String::from_str(config.openai_url.as_str());
    url.append("/v1/chat/completions");
    let mut authorization = String::from_str("Bearer ");
    authorization.append(config.openai_api_key.as_str());
    let system = get_system_prompt(config.user_language.as_str());
    let user = user_content(diff, extra);
    let mut body = String::from_str("{\"model\":");
    body.append(json_quote(config.openai_model.as_str()).as_str());
    body.append(",\"messages\":[{\"role\":\"system\",\"content\":");
    body.append(json_quote(system.as_str()).as_str());
    body.append("},{\"role\":\"user\",\"content\":");
    body.append(json_quote(user.as_str()).as_str());
    body.append("}],\"temperature\":0.7}");
    ChatRequest { url, authorization, body }
}

} // verus!
