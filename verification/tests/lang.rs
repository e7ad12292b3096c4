use hlmv::lang::{translate, LOCALEMSG};

#[test]
fn russian_when_lang_starts_with_ru() {
    assert_eq!(translate(Some("ru_RU.UTF-8"), LOCALEMSG::FileCreated), "Создан файл");
    assert_eq!(
        translate(Some("ru"), LOCALEMSG::DataBaseInitFail),
        "Ошибка инициализации базы данных"
    );
}

#[test]
fn english_otherwise() {
    assert_eq!(translate(Some("en_US.UTF-8"), LOCALEMSG::FileCreated), "File created");
    assert_eq!(translate(Some("RU_ru"), LOCALEMSG::InitEr), "Error initialasing application");
    assert_eq!(translate(Some(""), LOCALEMSG::DataBaseEr), "Data base error:");
}

#[test]
fn english_when_lang_unset() {
    assert_eq!(translate(None, LOCALEMSG::ThumbCrate), "Error: can not create prewie");
    assert_eq!(translate(None, LOCALEMSG::DirEmptyChekFail), "Error: can not check directory");
}

#[test]
fn every_message_has_both_texts() {
    let all = [
        LOCALEMSG::ElfDirUnfound,
        LOCALEMSG::DataBaseInitFail,
        LOCALEMSG::DataBaseEr,
        LOCALEMSG::InitEr,
        LOCALEMSG::DBuploadFail,
        LOCALEMSG::DBgetIDFail,
        LOCALEMSG::ThumbCrate,
        LOCALEMSG::FileCreated,
        LOCALEMSG::DirEmptyChekFail,
    ];
    for m in all {
        let ru = translate(Some("ru_RU"), m);
        let en = translate(None, m);
        assert!(!ru.is_empty() && !en.is_empty());
        assert_ne!(ru, en);
        assert!(en.is_ascii());
    }
}
