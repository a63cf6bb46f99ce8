//! What the engine answers to a command.

use vstd::prelude::*;

verus! {

/// A command of a user.
#[derive(Debug, Clone, Copy, PartialEq, Eq, Structural)]
pub enum Command {
    Start,
    Help,
    Persona,
    MySessions,
    Settings,
}

/// What is shown in answer to a command.
#[derive(Debug, Clone, Copy, PartialEq, Eq, Structural)]
pub enum CommandReply {
    /// The welcome, over the main menu.
    Welcome,
    /// The help.
    Help,
    /// The selection of a persona.
    PersonaSelection,
    /// The list of the user's sessions.
    SessionsList,
    /// The list of personas.
    ConsultantsList,
}

/// What is shown in answer to `command`.
pub open spec fn reply_to(command: Command) -> CommandReply {
    match command {
        Command::Start => CommandReply::Welcome,
        Command::Help => CommandReply::Help,
        Command::Persona => CommandReply::PersonaSelection,
        Command::MySessions => CommandReply::SessionsList,
        Command::Settings => CommandReply::ConsultantsList,
    }
}

/// What is shown in answer to `command`.
pub fn command_handler(command: Command) -> (reply: CommandReply)
    ensures
        reply == reply_to(command),
{
    match command {
        Command::Start => CommandReply::Welcome,
        Command::Help => CommandReply::Help,
        Command::Persona => CommandReply::PersonaSelection,
        Command::MySessions => CommandReply::SessionsList,
        Command::Settings => CommandReply::ConsultantsList,
    }
}

/// The text of an answer to a command, where the answer has a text of its
/// own. The list of the user's sessions has none: its text depends on the
/// sessions.
pub open spec fn reply_words(reply: CommandReply) -> Option<Seq<char>> {
    match reply {
        CommandReply::Welcome => Some(
            "👋 *Добро пожаловать в ListenerBot\\!*\n\n🧠 *Кто я?*\nЯ — ИИ\\-ассистент для эмоциональной поддержки\\.\nЯ не являюсь психологом, психотерапевтом или медицинским специалистом\\.\n\n📋 *Команды:*\n/start – начать работу\n/persona – выбрать консультанта \\(стиль общения\\)\n/mysessions – ваши оплаченные сессии\n/settings – список консультантов\n\n🛠️ *Как это работает:*\n1\\. Выберите консультанта \\(стиль общения\\)\n2\\. Оплатите время общения через Telegram Stars\n3\\. Общайтесь с ИИ в течение оплаченного времени\n4\\. Можно продлевать сессию\n\n🔐 *Конфиденциальность:*\n• Сообщения не передаются третьим лицам\n• Анонимность\n• Никаких реальных специалистов в проекте нет\n\n⚠️ *Важно:*\nОтветы носят информационный и поддерживающий характер и не заменяют профессиональную помощь\\."@,
        ),
        CommandReply::Help => Some(
            "🫂 *Помощь по боту*\n\n/start - начать работу\n/persona - выбрать консультанта\n/mysessions - мои сессии\n/settings - список консультантов\n\n*Как это работает:*\n1\\. Выберите консультанта\n2\\. Оплатите время через Telegram Stars\n3\\. Общайтесь с ИИ в течение оплаченного времени\n4\\. Можно продлить при необходимости\n\n⚠️ Ответы носят информационный характер и не являются консультацией специалиста\\."@,
        ),
        CommandReply::PersonaSelection => Some(
            "👥 *Выберите консультанта*\n\nКаждый консультант — это стиль общения ИИ с разным характером и ценой\\.\nЭто не психологи и не специалисты\\."@,
        ),
        CommandReply::SessionsList => None,
        CommandReply::ConsultantsList => Some(
            "👥 *Список консультантов*\n\nВыберите консультанта чтобы увидеть подробную информацию:\n\nКаждый консультант — это стиль общения ИИ с разным характером и ценой\\.\nЭто не психологи и не специалисты\\."@,
        ),
    }
}

impl CommandReply {
    /// The text of the answer, where it has a text of its own.
    pub fn text(&self) -> (words: Option<String>)
        ensures
            crate::llm::config::text_of(words) == reply_words(*self),
    {
        match self {
            CommandReply::Welcome => Some(
                "👋 *Добро пожаловать в ListenerBot\\!*\n\n🧠 *Кто я?*\nЯ — ИИ\\-ассистент для эмоциональной поддержки\\.\nЯ не являюсь психологом, психотерапевтом или медицинским специалистом\\.\n\n📋 *Команды:*\n/start – начать работу\n/persona – выбрать консультанта \\(стиль общения\\)\n/mysessions – ваши оплаченные сессии\n/settings – список консультантов\n\n🛠️ *Как это работает:*\n1\\. Выберите консультанта \\(стиль общения\\)\n2\\. Оплатите время общения через Telegram Stars\n3\\. Общайтесь с ИИ в течение оплаченного времени\n4\\. Можно продлевать сессию\n\n🔐 *Конфиденциальность:*\n• Сообщения не передаются третьим лицам\n• Анонимность\n• Никаких реальных специалистов в проекте нет\n\n⚠️ *Важно:*\nОтветы носят информационный и поддерживающий характер и не заменяют профессиональную помощь\\.".to_owned(),
            ),
            CommandReply::Help => Some(
                "🫂 *Помощь по боту*\n\n/start - начать работу\n/persona - выбрать консультанта\n/mysessions - мои сессии\n/settings - список консультантов\n\n*Как это работает:*\n1\\. Выберите консультанта\n2\\. Оплатите время через Telegram Stars\n3\\. Общайтесь с ИИ в течение оплаченного времени\n4\\. Можно продлить при необходимости\n\n⚠️ Ответы носят информационный характер и не являются консультацией специалиста\\.".to_owned(),
            ),
            CommandReply::PersonaSelection => Some(
                "👥 *Выберите консультанта*\n\nКаждый консультант — это стиль общения ИИ с разным характером и ценой\\.\nЭто не психологи и не специалисты\\.".to_owned(),
            ),
            CommandReply::SessionsList => None,
            CommandReply::ConsultantsList => Some(
                "👥 *Список консультантов*\n\nВыберите консультанта чтобы увидеть подробную информацию:\n\nКаждый консультант — это стиль общения ИИ с разным характером и ценой\\.\nЭто не психологи и не специалисты\\.".to_owned(),
            ),
        }
    }
}

} // verus!
