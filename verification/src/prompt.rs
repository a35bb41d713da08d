//! Prompt rendering: deterministic templates, one per language, with the
//! change summary appended verbatim.

use crate::config::Lang;
use crate::config::lang_of;
use vstd::prelude::*;
use vstd::string::StringExecFns;

verus! {

/// The fixed English instruction template; the change summary follows it.
pub open spec fn en_template() -> Seq<char> {
    "You are a commit message generator AI.\n\nGiven the following diff or list of changed files, generate a concise, clear, and informative **git commit message** that summarizes the changes.\nThe message should be suitable for use in professional software projects.\n\n**Important:**\n- Output **only** the commit message text — no explanations, no greetings, no metadata, no markdown formatting, no quotes.\n- Use the imperative mood (e.g., \"Add feature\", \"Fix bug\").\n- Keep it concise but descriptive (ideally 50-72 characters in the summary line).\n- If needed, you may add a short body (one or two sentences) explaining the why or context of the changes, separated from the summary by a blank line.\n- Do not include any other information besides the commit message.\n\nHere are the changes:\n"@
}

/// The fixed Russian instruction template; the change summary follows it.
pub open spec fn ru_template() -> Seq<char> {
    "\n            Ты — AI для генерации сообщений коммитов.\n\nНа входе у тебя — список изменений в проекте в формате diff или список изменённых файлов.\nТвоя задача — сгенерировать короткое, информативное и понятное **сообщение коммита**, которое точно отражает внесённые изменения.\n\n**Важно:**\n- Выводи **только** текст сообщения коммита — никаких объяснений, приветствий, метаданных, кавычек и форматирования.\n- Используй повелительное наклонение (например: «Добавить…», «Исправить…», «Удалить…»).\n- Сообщение должно быть кратким, но ёмким (рекомендуется от 50 до 72 символов в заголовке).\n- При необходимости можешь добавить короткое тело (одна-две строки), отделённое пустой строкой, где объяснишь причину или контекст изменений.\n- Никакой дополнительной информации, только сообщение коммита.\n\nВот список изменений:\n"@
}

fn en_template_str() -> (r: &'static str)
    ensures
        r@ == en_template(),
{
    "You are a commit message generator AI.\n\nGiven the following diff or list of changed files, generate a concise, clear, and informative **git commit message** that summarizes the changes.\nThe message should be suitable for use in professional software projects.\n\n**Important:**\n- Output **only** the commit message text — no explanations, no greetings, no metadata, no markdown formatting, no quotes.\n- Use the imperative mood (e.g., \"Add feature\", \"Fix bug\").\n- Keep it concise but descriptive (ideally 50-72 characters in the summary line).\n- If needed, you may add a short body (one or two sentences) explaining the why or context of the changes, separated from the summary by a blank line.\n- Do not include any other information besides the commit message.\n\nHere are the changes:\n"
}

fn ru_template_str() -> (r: &'static str)
    ensures
        r@ == ru_template(),
{
    "\n            Ты — AI для генерации сообщений коммитов.\n\nНа входе у тебя — список изменений в проекте в формате diff или список изменённых файлов.\nТвоя задача — сгенерировать короткое, информативное и понятное **сообщение коммита**, которое точно отражает внесённые изменения.\n\n**Важно:**\n- Выводи **только** текст сообщения коммита — никаких объяснений, приветствий, метаданных, кавычек и форматирования.\n- Используй повелительное наклонение (например: «Добавить…», «Исправить…», «Удалить…»).\n- Сообщение должно быть кратким, но ёмким (рекомендуется от 50 до 72 символов в заголовке).\n- При необходимости можешь добавить короткое тело (одна-две строки), отделённое пустой строкой, где объяснишь причину или контекст изменений.\n- Никакой дополнительной информации, только сообщение коммита.\n\nВот список изменений:\n"
}

/// The prompt a summary renders to: the template the language selects,
/// with the summary appended verbatim.
pub open spec fn rendered(summary: Seq<char>, lang: Lang) -> Seq<char> {
    match lang {
        Lang::En => en_template() + summary,
        Lang::Ru => ru_template() + summary,
    }
}

/// Renders the change summary into the instruction prompt for the selected
/// language. Pure and total: the result is a function of the two arguments.
pub fn render(summary: &str, lang: Lang) -> (r: String)
    ensures
        r@ == rendered(summary@, lang),
{
    let template = match lang {
        Lang::En => en_template_str(),
        Lang::Ru => ru_template_str(),
    };
    let mut r = String::from_str(template);
    r.append(summary);
    r
}

/// Renders the change summary with the template the language code selects;
/// any code other than "ru" selects the English template.
pub fn build_prompt(diff_or_list: &str, lang: &str) -> (r: String)
    ensures
        r@ == rendered(diff_or_list@, lang_of(lang@)),
{
    render(diff_or_list, Lang::from_code(lang))
}

/// Rendering distinguishes the languages: for any summary, the English and
/// Russian prompts differ.
pub proof fn lemma_render_languages_differ(summary: Seq<char>)
    requires
        summary.len() > 0,
    ensures
        rendered(summary, Lang::En) != rendered(summary, Lang::Ru),
{
    reveal_strlit("You are a commit message generator AI.\n\nGiven the following diff or list of changed files, generate a concise, clear, and informative **git commit message** that summarizes the changes.\nThe message should be suitable for use in professional software projects.\n\n**Important:**\n- Output **only** the commit message text — no explanations, no greetings, no metadata, no markdown formatting, no quotes.\n- Use the imperative mood (e.g., \"Add feature\", \"Fix bug\").\n- Keep it concise but descriptive (ideally 50-72 characters in the summary line).\n- If needed, you may add a short body (one or two sentences) explaining the why or context of the changes, separated from the summary by a blank line.\n- Do not include any other information besides the commit message.\n\nHere are the changes:\n");
    reveal_strlit("\n            Ты — AI для генерации сообщений коммитов.\n\nНа входе у тебя — список изменений в проекте в формате diff или список изменённых файлов.\nТвоя задача — сгенерировать короткое, информативное и понятное **сообщение коммита**, которое точно отражает внесённые изменения.\n\n**Важно:**\n- Выводи **только** текст сообщения коммита — никаких объяснений, приветствий, метаданных, кавычек и форматирования.\n- Используй повелительное наклонение (например: «Добавить…», «Исправить…», «Удалить…»).\n- Сообщение должно быть кратким, но ёмким (рекомендуется от 50 до 72 символов в заголовке).\n- При необходимости можешь добавить короткое тело (одна-две строки), отделённое пустой строкой, где объяснишь причину или контекст изменений.\n- Никакой дополнительной информации, только сообщение коммита.\n\nВот список изменений:\n");
    assert(en_template().len() != ru_template().len());
    assert(rendered(summary, Lang::En).len() != rendered(summary, Lang::Ru).len());
}

/// Rendering is deterministic: two renderings of the same summary in the
/// same language are the same prompt.
pub proof fn lemma_render_deterministic(summary: Seq<char>, lang: Lang, r1: Seq<char>, r2: Seq<char>)
    requires
        r1 == rendered(summary, lang),
        r2 == rendered(summary, lang),
    ensures
        r1 == r2,
{
}

} // verus!
