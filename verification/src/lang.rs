use vstd::prelude::*;

use crate::text::{has_prefix, starts_with};

verus! {

/// The messages that the application shows to its user.
#[allow(non_camel_case_types)]
#[derive(Clone, Copy, Debug, PartialEq, Eq, Structural)]
pub enum LOCALEMSG {
    ElfDirUnfound,
    DataBaseInitFail,
    DataBaseEr,
    InitEr,
    DBuploadFail,
    DBgetIDFail,
    ThumbCrate,
    FileCreated,
    DirEmptyChekFail,
}

/// Whether a `LANG` setting selects Russian: it starts with `ru`. An unset
/// setting counts as `en_US.UTF-8`, which does not.
pub open spec fn is_russian(lang: Option<Seq<char>>) -> bool {
    match lang {
        Some(l) => has_prefix(l, "ru"@),
        None => false,
    }
}

/// The text of a message in Russian or in English.
pub open spec fn message_text(russian: bool, msg: LOCALEMSG) -> Seq<char> {
    if russian {
        match msg {
            LOCALEMSG::ElfDirUnfound => "Ошибка определения местоположения исполняемого файла"@,
            LOCALEMSG::DataBaseInitFail => "Ошибка инициализации базы данных"@,
            LOCALEMSG::DataBaseEr => "Ошибка базы данных:"@,
            LOCALEMSG::InitEr => "Ошибка инициализации приложения"@,
            LOCALEMSG::DBuploadFail => "Ошибкак добавления записи в базу данных"@,
            LOCALEMSG::DBgetIDFail => "Ошибка получения препросмотра, используем дефолтный ассет"@,
            LOCALEMSG::ThumbCrate => "Ошибка создания файла предпросмотра"@,
            LOCALEMSG::FileCreated => "Создан файл"@,
            LOCALEMSG::DirEmptyChekFail => "Неудалось проверить содержимое директории"@,
        }
    } else {
        match msg {
            LOCALEMSG::ElfDirUnfound => "Error: unavaible find executable file"@,
            LOCALEMSG::DataBaseInitFail => "Error: can not init data base"@,
            LOCALEMSG::DataBaseEr => "Data base error:"@,
            LOCALEMSG::InitEr => "Error initialasing application"@,
            LOCALEMSG::DBuploadFail => "Error: can not upload new entity in data base"@,
            LOCALEMSG::DBgetIDFail => "Error: can not get prewie, using default asset"@,
            LOCALEMSG::ThumbCrate => "Error: can not create prewie"@,
            LOCALEMSG::FileCreated => "File created"@,
            LOCALEMSG::DirEmptyChekFail => "Error: can not check directory"@,
        }
    }
}

/// The view of an optional text.
pub open spec fn opt_text(s: Option<&str>) -> Option<Seq<char>> {
    match s {
        Some(t) => Some(t@),
        None => None,
    }
}

/// The text of `msg` for the language setting `lang` (the value of `LANG`,
/// `None` where it is unset or unreadable): Russian where the setting starts
/// with `ru`, English otherwise.
pub fn translate(lang: Option<&str>, msg: LOCALEMSG) -> (r: &'static str)
    ensures
        r@ == message_text(is_russian(opt_text(lang)), msg),
{
    let russian = match lang {
        Some(l) => starts_with(l, "ru"),
        None => false,
    };
    if russian {
        match msg {
            LOCALEMSG::ElfDirUnfound => "Ошибка определения местоположения исполняемого файла",
            LOCALEMSG::DataBaseInitFail => "Ошибка инициализации базы данных",
            LOCALEMSG::DataBaseEr => "Ошибка базы данных:",
            LOCALEMSG::InitEr => "Ошибка инициализации приложения",
            LOCALEMSG::DBuploadFail => "Ошибкак добавления записи в базу данных",
            LOCALEMSG::DBgetIDFail => "Ошибка получения препросмотра, используем дефолтный ассет",
            LOCALEMSG::ThumbCrate => "Ошибка создания файла предпросмотра",
            LOCALEMSG::FileCreated => "Создан файл",
            LOCALEMSG::DirEmptyChekFail => "Неудалось проверить содержимое директории",
        }
    } else {
        match msg {
            LOCALEMSG::ElfDirUnfound => "Error: unavaible find executable file",
            LOCALEMSG::DataBaseInitFail => "Error: can not init data base",
            LOCALEMSG::DataBaseEr => "Data base error:",
            LOCALEMSG::InitEr => "Error initialasing application",
            LOCALEMSG::DBuploadFail => "Error: can not upload new entity in data base",
            LOCALEMSG::DBgetIDFail => "Error: can not get prewie, using default asset",
            LOCALEMSG::ThumbCrate => "Error: can not create prewie",
            LOCALEMSG::FileCreated => "File created",
            LOCALEMSG::DirEmptyChekFail => "Error: can not check directory",
        }
    }
}

} // verus!
