//! The texts of the interface, each in all languages: English, French, Spanish,
//! Russian, German, Italian, Portuguese, Chinese, Turkish.

use vstd::prelude::*;

verus! {

pub const MENU_RESUME: [&'static str; 9] = [
    "RESUME",
    "REPRENDRE",
    "REANUDAR",
    "ПРОДОЛЖИТЬ",
    "FORTSETZEN",
    "RIPRENDI",
    "CONTINUAR",
    "继续",
    "DEVAM ET",
];

pub const MENU_KEYS: [&'static str; 9] = [
    "CONTROLS",
    "TOUCHES",
    "CONTROLES",
    "КЛАВИШИ",
    "STEUERUNG",
    "COMANDI",
    "CONTROLES",
    "按键",
    "KONTROLLER",
];

pub const MENU_RESTART: [&'static str; 9] = [
    "RESTART",
    "RED\u{00C9}MARRER",
    "REINICIAR",
    "ЗАНОВО",
    "NEUSTART",
    "RIAVVIA",
    "REINICIAR",
    "重新开始",
    "YEN\u{0130}DEN BA\u{015E}LAT",
];

pub const MENU_QUIT: [&'static str; 9] = [
    "QUIT",
    "QUITTER",
    "SALIR",
    "ВЫХОД",
    "BEENDEN",
    "ESCI",
    "SAIR",
    "退出",
    "\u{00C7}IKI\u{015E}",
];

pub const MENU_CURSOR: [&'static str; 9] = [
    "CURSOR",
    "CURSEUR",
    "CURSOR",
    "КУРСОР",
    "CURSOR",
    "CURSORE",
    "CURSOR",
    "光标",
    "IMLE\u{00C7}",
];

pub const PAUSE_TITLE: [&'static str; 9] = [
    "PAUSE",
    "PAUSE",
    "PAUSA",
    "ПАУЗА",
    "PAUSE",
    "PAUSA",
    "PAUSA",
    "暂停",
    "DURAKLATILDI",
];

pub const PAUSE_FOOTER: [&'static str; 9] = [
    "A:OK   B:CANCEL   UP/DOWN:NAV",
    "A:OK   B:ANNULER   HAUT/BAS:NAV",
    "A:OK   B:CANCELAR   ARRIBA/ABAJO:NAV",
    "A:ОК   B:ОТМЕНА   ВВЕРХ/ВНИЗ:НАВ",
    "A:OK   B:ABBRECHEN   HOCH/RUNTER:NAV",
    "A:OK   B:ANNULLA   SU/GI\u{00D9}:NAV",
    "A:OK   B:CANCELAR   CIMA/BAIXO:NAV",
    "A:确定   B:取消   上/下:导航",
    "A:TAMAM   B:IPTAL   YUKARI/A\u{015E}A\u{011E}I",
];

pub const KEYS_TITLE: [&'static str; 9] = [
    "CONTROLS",
    "TOUCHES",
    "CONTROLES",
    "КЛАВИШИ",
    "STEUERUNG",
    "COMANDI",
    "CONTROLES",
    "按键",
    "KONTROLLER",
];

pub const KEYS_FOOTER: [&'static str; 9] = [
    "A:EDIT  L/R:MODE  X:P1/P2  B:BACK",
    "A:\u{00C9}DITER  L/R:MODE  X:J1/J2  B:RETOUR",
    "A:EDITAR  L/R:MODO  X:J1/J2  B:VOLVER",
    "A:ИЗМЕНИТЬ  L/R:РЕЖИМ  X:P1/P2  B:НАЗАД",
    "A:BEARB.  L/R:MODUS  X:S1/S2  B:ZUR\u{00DC}CK",
    "A:MODIFICA  L/R:MODO  X:G1/G2  B:INDIETRO",
    "A:EDITAR  L/R:MODO  X:J1/J2  B:VOLTAR",
    "A:编辑  L/R:模式  X:玩家1/2  B:返回",
    "A:D\u{00DC}ZENLE  L/R:MOD  X:O1/O2  B:GER\u{0130}",
];

pub const KEYS_DROPDOWN_FOOTER: [&'static str; 9] = [
    "A:OK   B:CANCEL   UP/DOWN:NAV",
    "A:OK   B:ANNULER   HAUT/BAS:NAV",
    "A:OK   B:CANCELAR   ARRIBA/ABAJO:NAV",
    "A:ОК   B:ОТМЕНА   ВВЕРХ/ВНИЗ:НАВ",
    "A:OK   B:ABBRECHEN   HOCH/RUNTER:NAV",
    "A:OK   B:ANNULLA   SU/GI\u{00D9}:NAV",
    "A:OK   B:CANCELAR   CIMA/BAIXO:NAV",
    "A:确定   B:取消   上/下:导航",
    "A:TAMAM   B:IPTAL   YUKARI/A\u{015E}A\u{011E}I",
];

pub const NONE: [&'static str; 9] = [
    "(none)",
    "(aucune)",
    "(ninguna)",
    "(НЕТ)",
    "(keine)",
    "(nessuno)",
    "(nenhuma)",
    "(无)",
    "(yok)",
];

pub const FLASH_MOUSE_LEFT: [&'static str; 9] = [
    "Left click",
    "Clic gauche",
    "Clic izquierdo",
    "ЛЕВЫЙ КЛИК",
    "Linksklick",
    "Clic sinistro",
    "Clique esquerdo",
    "左键单击",
    "Sol tik",
];

pub const FLASH_MOUSE_RIGHT: [&'static str; 9] = [
    "Right click",
    "Clic droit",
    "Clic derecho",
    "ПРАВЫЙ КЛИК",
    "Rechtsklick",
    "Clic destro",
    "Clique direito",
    "右键单击",
    "Sa\u{011E} tik",
];

pub const FLASH_SPACE: [&'static str; 9] = [
    "Space",
    "Espace",
    "Espacio",
    "ПРОБЕЛ",
    "Leertaste",
    "Spazio",
    "Espa\u{00C7}o",
    "空格",
    "Bo\u{015E}luk",
];

pub const FLASH_ENTER: [&'static str; 9] = [
    "Enter",
    "Entr\u{00C9}e",
    "Intro",
    "ВВОД",
    "Enter",
    "Invio",
    "Enter",
    "回车",
    "Enter",
];

pub const FLASH_ESCAPE: [&'static str; 9] = [
    "Escape",
    "\u{00C9}chap",
    "Escape",
    "ESC",
    "Escape",
    "Esc",
    "Esc",
    "Esc",
    "Esc",
];

pub const FLASH_SHIFT: [&'static str; 9] = [
    "Shift",
    "Maj",
    "May\u{00DA}s",
    "SHIFT",
    "Umschalt",
    "Maiusc",
    "Shift",
    "Shift",
    "Shift",
];

pub const FLASH_CONTROL: [&'static str; 9] = [
    "Control",
    "Ctrl",
    "Ctrl",
    "CTRL",
    "Strg",
    "Ctrl",
    "Ctrl",
    "Ctrl",
    "Ctrl",
];

pub const FLASH_ALT: [&'static str; 9] = [
    "Alt",
    "Alt",
    "Alt",
    "ALT",
    "Alt",
    "Alt",
    "Alt",
    "Alt",
    "Alt",
];

pub const FLASH_TAB: [&'static str; 9] = [
    "Tab",
    "Tab",
    "Tab",
    "TAB",
    "Tab",
    "Tab",
    "Tab",
    "Tab",
    "Tab",
];

pub const FLASH_BACKSPACE: [&'static str; 9] = [
    "Backspace",
    "Retour arr.",
    "Retroceso",
    "BACKSPACE",
    "R\u{00DC}cktaste",
    "Backspace",
    "Backspace",
    "退格",
    "Geri sil",
];

pub const FLASH_UP: [&'static str; 9] = [
    "Up",
    "Haut",
    "Arriba",
    "ВВЕРХ",
    "Hoch",
    "Su",
    "Cima",
    "上",
    "Yukari",
];

pub const FLASH_DOWN: [&'static str; 9] = [
    "Down",
    "Bas",
    "Abajo",
    "ВНИЗ",
    "Runter",
    "Gi\u{00D9}",
    "Baixo",
    "下",
    "A\u{015E}a\u{011E}i",
];

pub const FLASH_LEFT: [&'static str; 9] = [
    "Left",
    "Gauche",
    "Izquierda",
    "ВЛЕВО",
    "Links",
    "Sinistra",
    "Esquerda",
    "左",
    "Sol",
];

pub const FLASH_RIGHT: [&'static str; 9] = [
    "Right",
    "Droite",
    "Derecha",
    "ВПРАВО",
    "Rechts",
    "Destra",
    "Direita",
    "右",
    "Sa\u{011E}",
];

pub const EMPTY_TITLE: [&'static str; 9] = [
    "NO GAMES",
    "AUCUN JEU",
    "SIN JUEGOS",
    "НЕТ ИГР",
    "KEINE SPIELE",
    "NESSUN GIOCO",
    "NENHUM JOGO",
    "没有游戏",
    "OYUN YOK",
];

pub const EMPTY_L1: [&'static str; 9] = [
    "DROP .SWF FILES INTO",
    "D\u{00C9}POSEZ DES FICHIERS .SWF DANS",
    "COLOCA ARCHIVOS .SWF EN",
    "ПОМЕСТИТЕ ФАЙЛЫ .SWF В",
    "LEGE .SWF-DATEIEN IN",
    "INSERISCI FILE .SWF IN",
    "COLOQUE ARQUIVOS .SWF EM",
    "将 .SWF 文件放入",
    ".SWF DOSYALARINI \u{015E}URAYA KOYUN",
];

pub const EMPTY_L2: [&'static str; 9] = [
    "SDMC:/FLASHNX/   OR   SDMC:/SWITCH/FLASHNX/",
    "SDMC:/FLASHNX/   OU   SDMC:/SWITCH/FLASHNX/",
    "SDMC:/FLASHNX/   O   SDMC:/SWITCH/FLASHNX/",
    "SDMC:/FLASHNX/   ИЛИ   SDMC:/SWITCH/FLASHNX/",
    "SDMC:/FLASHNX/   ODER   SDMC:/SWITCH/FLASHNX/",
    "SDMC:/FLASHNX/   O   SDMC:/SWITCH/FLASHNX/",
    "SDMC:/FLASHNX/   OU   SDMC:/SWITCH/FLASHNX/",
    "SDMC:/FLASHNX/   或   SDMC:/SWITCH/FLASHNX/",
    "SDMC:/FLASHNX/   VEYA   SDMC:/SWITCH/FLASHNX/",
];

pub const EMPTY_L3: [&'static str; 9] = [
    "THEN RESTART FLASHNX.",
    "PUIS RED\u{00C9}MARREZ FLASHNX.",
    "Y REINICIA FLASHNX.",
    "ЗАТЕМ ПЕРЕЗАПУСТИТЕ FLASHNX.",
    "DANN FLASHNX NEU STARTEN.",
    "POI RIAVVIA FLASHNX.",
    "DEPOIS REINICIE O FLASHNX.",
    "然后重启 FLASHNX。",
    "SONRA FLASHNX'I YEN\u{0130}DEN BA\u{015E}LATIN.",
];

pub const EMPTY_FOOTER: [&'static str; 9] = [
    "Y:REMOTE IMPORT   -:QUIT",
    "Y:IMPORT DISTANT   -:QUITTER",
    "Y:IMPORTAR REMOTO   -:SALIR",
    "Y:ЗАГРУЗКА ПО СЕТИ   -:ВЫХОД",
    "Y:ONLINE-IMPORT   -:BEENDEN",
    "Y:IMPORT REMOTO   -:ESCI",
    "Y:IMPORTAR REMOTO   -:SAIR",
    "Y:在线导入   -:退出",
    "Y:UZAKTAN AKTAR   -:\u{00C7}IKI\u{015E}",
];

pub const LIST_FOOTER: [&'static str; 9] = [
    "L/R:TABS  A:PLAY  Y:SORT  -:SEARCH  +:OPTIONS  ZL/ZR:PAGE",
    "L/R:ONGLETS  A:JOUER  Y:TRIER  -:RECHERCHE  +:OPTIONS  ZL/ZR:PAGE",
    "L/R:PESTA\u{00D1}AS  A:JUGAR  Y:ORDENAR  -:BUSCAR  +:OPCIONES  ZL/ZR:P\u{00C1}GINA",
    "L/R:ВКЛАДКИ  A:ИГРАТЬ  Y:СОРТ  -:ПОИСК  +:ОПЦИИ  ZL/ZR:СТР",
    "L/R:TABS  A:SPIELEN  Y:SORT.  -:SUCHE  +:OPTIONEN  ZL/ZR:SEITE",
    "L/R:SCHEDE  A:GIOCA  Y:ORDINA  -:CERCA  +:OPZIONI  ZL/ZR:PAGINA",
    "L/R:ABAS  A:JOGAR  Y:ORDENAR  -:BUSCAR  +:OP\u{00C7}\u{00D5}ES  ZL/ZR:P\u{00C1}GINA",
    "L/R:标签  A:开始  Y:排序  -:搜索  +:选项  ZL/ZR:翻页",
    "L/R:SEKMELER  A:OYNA  Y:SIRALA  -:ARA  +:SE\u{00C7}ENEK  ZL/ZR:SAYFA",
];

pub const APPLET_TITLE: [&'static str; 9] = [
    "APPLET MODE",
    "MODE APPLET",
    "MODO APPLET",
    "РЕЖИМ АППЛЕТА",
    "APPLET-MODUS",
    "MODALIT\u{00C0} APPLET",
    "MODO APPLET",
    "小程序模式",
    "APPLET MODU",
];

pub const APPLET_NOTICE: [&'static str; 9] = [
    "LAUNCHING A GAME NEEDS THE FULL APP MEMORY, WHICH APPLET MODE DOES NOT HAVE. IN THE HOMEBREW MENU, HOLD R ON A TITLE (OR USE A FORWARDER) TO START FLASHNX WITH FULL MEMORY.",
    "LANCER UN JEU DEMANDE TOUTE LA M\u{00C9}MOIRE DE L'APP, INDISPONIBLE EN MODE APPLET. DANS LE HOMEBREW MENU, TIENS R SUR UN TITRE (OU UN FORWARDER) POUR D\u{00C9}MARRER FLASHNX AVEC TOUTE LA M\u{00C9}MOIRE.",
    "EJECUTAR UN JUEGO NECESITA TODA LA MEMORIA DE LA APP, QUE EL MODO APPLET NO TIENE. EN EL HOMEBREW MENU, MANT\u{00C9}N R SOBRE UN T\u{00CD}TULO (O USA UN FORWARDER) PARA INICIAR FLASHNX CON TODA LA MEMORIA.",
    "ДЛЯ ЗАПУСКА ИГРЫ НУЖНА ВСЯ ПАМЯТЬ ПРИЛОЖЕНИЯ, КОТОРОЙ НЕТ В РЕЖИМЕ АППЛЕТА. В HOMEBREW MENU УДЕРЖИВАЙТЕ R НА ИГРЕ, ЧТОБЫ ЗАПУСТИТЬ FLASHNX СО ВСЕЙ ПАМЯТЬЮ.",
    "EIN SPIEL ZU STARTEN BRAUCHT DEN VOLLEN APP-SPEICHER, DEN DER APPLET-MODUS NICHT HAT. HALTE IM HOMEBREW-MEN\u{00DC} R AUF EINEM TITEL (ODER NUTZE EINEN FORWARDER), UM FLASHNX MIT VOLLEM SPEICHER ZU STARTEN.",
    "AVVIARE UN GIOCO RICHIEDE TUTTA LA MEMORIA DELL'APP, CHE LA MODALIT\u{00C0} APPLET NON HA. NELL'HOMEBREW MENU, TIENI PREMUTO R SU UN TITOLO (O USA UN FORWARDER) PER AVVIARE FLASHNX CON TUTTA LA MEMORIA.",
    "INICIAR UM JOGO PRECISA DE TODA A MEM\u{00D3}RIA DO APP, QUE O MODO APPLET N\u{00C3}O TEM. NO HOMEBREW MENU, SEGURE R SOBRE UM T\u{00CD}TULO (OU USE UM FORWARDER) PARA INICIAR O FLASHNX COM TODA A MEM\u{00D3}RIA.",
    "启动游戏需要应用的全部内存，小程序模式没有。在自制软件菜单中，按住 R 选择标题（或使用转发器）以全内存启动 FLASHNX。",
    "B\u{0130}R OYUN BA\u{015E}LATMAK UYGULAMANIN T\u{00DC}M BELLE\u{011E}\u{0130}N\u{0130} GEREKT\u{0130}R\u{0130}R, APPLET MODUNDA BU BELLEK YOKTUR. HOMEBREW MEN\u{00DC}S\u{00DC}NDE B\u{0130}R OYUNA (VEYA FORWARDER'A) R TU\u{015E}UNU BASILI TUTARAK FLASHNX'I TAM BELLEKLE BA\u{015E}LATIN.",
];

pub const OPTIONS_TITLE: [&'static str; 9] = [
    "OPTIONS",
    "OPTIONS",
    "OPCIONES",
    "ОПЦИИ",
    "OPTIONEN",
    "OPZIONI",
    "OP\u{00C7}\u{00D5}ES",
    "选项",
    "SE\u{00C7}ENEKLER",
];

pub const OPT_KEYS: [&'static str; 9] = [
    "CONTROLS",
    "TOUCHES",
    "CONTROLES",
    "КЛАВИШИ",
    "STEUERUNG",
    "COMANDI",
    "CONTROLES",
    "按键",
    "KONTROLLER",
];

pub const OPT_RENAME: [&'static str; 9] = [
    "RENAME",
    "RENOMMER",
    "RENOMBRAR",
    "ПЕРЕИМЕНОВАТЬ",
    "UMBENENNEN",
    "RINOMINA",
    "RENOMEAR",
    "重命名",
    "YEN\u{0130}DEN ADLANDIR",
];

pub const OPT_EDIT: [&'static str; 9] = [
    "EDIT",
    "\u{00C9}DITER",
    "EDITAR",
    "ИЗМЕНИТЬ",
    "BEARBEITEN",
    "MODIFICA",
    "EDITAR",
    "编辑",
    "D\u{00DC}ZENLE",
];

pub const OPT_DELETE: [&'static str; 9] = [
    "DELETE",
    "SUPPRIMER",
    "BORRAR",
    "УДАЛИТЬ",
    "L\u{00D6}SCHEN",
    "ELIMINA",
    "EXCLUIR",
    "删除",
    "S\u{0130}L",
];

pub const OPT_BACK: [&'static str; 9] = [
    "BACK",
    "RETOUR",
    "VOLVER",
    "НАЗАД",
    "ZUR\u{00DC}CK",
    "INDIETRO",
    "VOLTAR",
    "返回",
    "GER\u{0130}",
];

pub const OPTIONS_FOOTER: [&'static str; 9] = [
    "A:OK   B:BACK",
    "A:OK   B:RETOUR",
    "A:OK   B:VOLVER",
    "A:ОК   B:НАЗАД",
    "A:OK   B:ZUR\u{00DC}CK",
    "A:OK   B:INDIETRO",
    "A:OK   B:VOLTAR",
    "A:确定   B:返回",
    "A:TAMAM   B:GER\u{0130}",
];

pub const DEL_TITLE: [&'static str; 9] = [
    "DELETE ?",
    "SUPPRIMER ?",
    "\u{00BF}BORRAR ?",
    "УДАЛИТЬ ?",
    "L\u{00D6}SCHEN ?",
    "ELIMINARE ?",
    "EXCLUIR ?",
    "删除？",
    "S\u{0130}L\u{0130}NS\u{0130}N M\u{0130}?",
];

pub const DEL_L1: [&'static str; 9] = [
    "The .swf file, the saves (.sol),",
    "LE FICHIER .swf, LES SAUVEGARDES (.sol),",
    "EL ARCHIVO .swf, LAS PARTIDAS (.sol),",
    "ФАЙЛ .swf, СОХРАНЕНИЯ (.sol),",
    "DIE .swf-DATEI, DIE SPEICHER (.sol),",
    "IL FILE .swf, I SALVATAGGI (.sol),",
    "O ARQUIVO .swf, OS SAVES (.sol),",
    ".swf 文件、存档 (.sol)、",
    ".swf DOSYASI, KAYITLAR (.sol),",
];

pub const DEL_L2: [&'static str; 9] = [
    "the controls and the alias will be erased.",
    "LES TOUCHES ET L'ALIAS SERONT EFFAC\u{00C9}S.",
    "LOS CONTROLES Y EL ALIAS SE BORRAR\u{00C1}N.",
    "КЛАВИШИ И ПСЕВДОНИМ БУДУТ УДАЛЕНЫ.",
    "DIE STEUERUNG UND DER ALIAS WERDEN GEL\u{00D6}SCHT.",
    "I COMANDI E L'ALIAS SARANNO ELIMINATI.",
    "OS CONTROLES E O ALIAS SER\u{00C3}O APAGADOS.",
    "按键和别名都将被删除。",
    "KONTROLLER VE TAKMA AD S\u{0130}L\u{0130}NECEK.",
];

pub const DEL_L3: [&'static str; 9] = [
    "This cannot be undone.",
    "ACTION IRR\u{00C9}VERSIBLE.",
    "ACCI\u{00D3}N IRREVERSIBLE.",
    "ДЕЙСТВИЕ НЕОБРАТИМО.",
    "NICHT R\u{00DC}CKG\u{00C4}NGIG ZU MACHEN.",
    "AZIONE IRREVERSIBILE.",
    "A\u{00C7}\u{00C3}O IRREVERS\u{00CD}VEL.",
    "此操作无法撤销。",
    "BU GER\u{0130} ALINAMAZ.",
];

pub const DEL_FOOTER: [&'static str; 9] = [
    "A: DELETE     B: CANCEL",
    "A: SUPPRIMER     B: ANNULER",
    "A: BORRAR     B: CANCELAR",
    "A: УДАЛИТЬ     B: ОТМЕНА",
    "A: L\u{00D6}SCHEN     B: ABBRECHEN",
    "A: ELIMINA     B: ANNULLA",
    "A: EXCLUIR     B: CANCELAR",
    "A: 删除     B: 取消",
    "A: S\u{0130}L     B: IPTAL",
];

pub const DIST_TITLE: [&'static str; 9] = [
    "REMOTE IMPORT",
    "IMPORT DISTANT",
    "IMPORTAR REMOTO",
    "ЗАГРУЗКА ПО СЕТИ",
    "ONLINE-IMPORT",
    "IMPORT REMOTO",
    "IMPORTAR REMOTO",
    "在线导入",
    "UZAKTAN AKTAR",
];

pub const DIST_ADD: [&'static str; 9] = [
    "+ ADD A URL",
    "+ AJOUTER UNE URL",
    "+ A\u{00D1}ADIR UNA URL",
    "+ ДОБАВИТЬ URL",
    "+ URL HINZUF\u{00DC}GEN",
    "+ AGGIUNGI UN URL",
    "+ ADICIONAR UMA URL",
    "+ 添加网址",
    "+ URL EKLE",
];

pub const DIST_LIST_FOOTER: [&'static str; 9] = [
    "A:LAUNCH   +:OPTIONS   Y:SORT   -:SEARCH   X:FLASHPOINT",
    "A:LANCER   +:OPTIONS   Y:TRIER   -:RECHERCHE   X:FLASHPOINT",
    "A:LANZAR   +:OPCIONES   Y:ORDENAR   -:BUSCAR   X:FLASHPOINT",
    "A:ЗАПУСК   +:ОПЦИИ   Y:СОРТ   -:ПОИСК   X:FLASHPOINT",
    "A:STARTEN   +:OPTIONEN   Y:SORT.   -:SUCHE   X:FLASHPOINT",
    "A:AVVIA   +:OPZIONI   Y:ORDINA   -:CERCA   X:FLASHPOINT",
    "A:INICIAR   +:OP\u{00C7}\u{00D5}ES   Y:ORDENAR   -:BUSCAR   X:FLASHPOINT",
    "A:启动   +:选项   Y:排序   -:搜索   X:FLASHPOINT",
    "A:BA\u{015E}LAT   +:SE\u{00C7}ENEK   Y:SIRALA   -:ARA   X:FLASHPOINT",
];

pub const DIST_COUNT: [&'static str; 9] = [
    "{} URL(S)",
    "{} URL",
    "{} URL",
    "{} URL",
    "{} URL(S)",
    "{} URL",
    "{} URL(S)",
    "{} 个网址",
    "{} URL",
];

pub const DIST_SUBTITLE: [&'static str; 9] = [
    "DOWNLOAD SWF FROM ARCHIVE.ORG",
    "T\u{00C9}L\u{00C9}CHARGEMENT DE SWF DEPUIS ARCHIVE.ORG",
    "DESCARGAR SWF DESDE ARCHIVE.ORG",
    "ЗАГРУЗКА SWF С ARCHIVE.ORG",
    "SWF VON ARCHIVE.ORG HERUNTERLADEN",
    "SCARICA SWF DA ARCHIVE.ORG",
    "BAIXAR SWF DO ARCHIVE.ORG",
    "从 ARCHIVE.ORG 下载 SWF",
    "ARCHIVE.ORG'DAN SWF IND\u{0130}R",
];

pub const DIST_PRESS_A: [&'static str; 9] = [
    "PRESS A TO ENTER A URL",
    "APPUYEZ SUR A POUR SAISIR UNE URL",
    "PULSA A PARA INTRODUCIR UNA URL",
    "НАЖМИТЕ A ЧТОБЫ ВВЕСТИ URL",
    "DR\u{00DC}CKE A, UM EINE URL EINZUGEBEN",
    "PREMI A PER INSERIRE UN URL",
    "PRESSIONE A PARA INSERIR UMA URL",
    "按 A 输入网址",
    "URL G\u{0130}RMEK I\u{00C7}IN A'YA BASIN",
];

pub const DIST_EXAMPLE1: [&'static str; 9] = [
    "EXAMPLE: HTTPS://ARCHIVE.ORG/DETAILS/<ITEM-ID>",
    "EXEMPLE: HTTPS://ARCHIVE.ORG/DETAILS/<ITEM-ID>",
    "EJEMPLO: HTTPS://ARCHIVE.ORG/DETAILS/<ITEM-ID>",
    "ПРИМЕР: HTTPS://ARCHIVE.ORG/DETAILS/<ITEM-ID>",
    "BEISPIEL: HTTPS://ARCHIVE.ORG/DETAILS/<ITEM-ID>",
    "ESEMPIO: HTTPS://ARCHIVE.ORG/DETAILS/<ITEM-ID>",
    "EXEMPLO: HTTPS://ARCHIVE.ORG/DETAILS/<ITEM-ID>",
    "示例: HTTPS://ARCHIVE.ORG/DETAILS/<ITEM-ID>",
    "\u{00D6}RNEK: HTTPS://ARCHIVE.ORG/DETAILS/<ITEM-ID>",
];

pub const DIST_EXAMPLE2: [&'static str; 9] = [
    "OR SIMPLY <ITEM-ID>",
    "OU SIMPLEMENT <ITEM-ID>",
    "O SIMPLEMENTE <ITEM-ID>",
    "ИЛИ ПРОСТО <ITEM-ID>",
    "ODER EINFACH <ITEM-ID>",
    "O SEMPLICEMENTE <ITEM-ID>",
    "OU SIMPLESMENTE <ITEM-ID>",
    "或直接输入 <ITEM-ID>",
    "VEYA SADECE <ITEM-ID>",
];

pub const DIST_HISTORY: [&'static str; 9] = [
    "HISTORY",
    "HISTORIQUE",
    "HISTORIAL",
    "ИСТОРИЯ",
    "VERLAUF",
    "CRONOLOGIA",
    "HIST\u{00D3}RICO",
    "历史记录",
    "GE\u{00C7}M\u{0130}\u{015E}",
];

pub const DIST_HINT_ZR: [&'static str; 9] = [
    "ZR : LOAD THIS URL DIRECTLY",
    "ZR : CHARGER CETTE URL DIRECTEMENT",
    "ZR : CARGAR ESTA URL DIRECTAMENTE",
    "ZR : ЗАГРУЗИТЬ ЭТОТ URL НАПРЯМУЮ",
    "ZR : DIESE URL DIREKT LADEN",
    "ZR : CARICA QUESTO URL DIRETTAMENTE",
    "ZR : CARREGAR ESTA URL DIRETAMENTE",
    "ZR : 直接加载此网址",
    "ZR : BU URL'Y\u{0130} DO\u{011E}RUDAN Y\u{00DC}KLE",
];

pub const DIST_HINT_A: [&'static str; 9] = [
    "A  : ENTER / EDIT URL (KEYBOARD)",
    "A  : SAISIR / \u{00C9}DITER URL (CLAVIER)",
    "A  : INTRODUCIR / EDITAR URL (TECLADO)",
    "A  : ВВЕСТИ / ИЗМЕНИТЬ URL (КЛАВИАТУРА)",
    "A  : URL EINGEBEN / BEARBEITEN (TASTATUR)",
    "A  : INSERISCI / MODIFICA URL (TASTIERA)",
    "A  : INSERIR / EDITAR URL (TECLADO)",
    "A  : 输入 / 编辑网址（键盘）",
    "A  : URL G\u{0130}R / D\u{00DC}ZENLE (KLAVYE)",
];

pub const DIST_HINT_LR: [&'static str; 9] = [
    "L / R : PREVIOUS / NEXT URL",
    "L / R : URL PR\u{00C9}C\u{00C9}DENTE / SUIVANTE",
    "L / R : URL ANTERIOR / SIGUIENTE",
    "L / R : ПРЕДЫДУЩИЙ / СЛЕДУЮЩИЙ URL",
    "L / R : VORHERIGE / N\u{00C4}CHSTE URL",
    "L / R : URL PRECEDENTE / SUCCESSIVO",
    "L / R : URL ANTERIOR / SEGUINTE",
    "L / R : 上一个 / 下一个网址",
    "L / R : \u{00D6}NCEK\u{0130} / SONRAK\u{0130} URL",
];

pub const DIST_FOOTER_HIST: [&'static str; 9] = [
    "ZR:OPEN  A:EDIT  ZL:DELETE  L/R:NAV  Y:LOCAL  -:QUIT",
    "ZR:OUVRIR  A:\u{00C9}DITER  ZL:SUPPR  L/R:NAV  Y:LOCAL  -:QUITTER",
    "ZR:ABRIR  A:EDITAR  ZL:BORRAR  L/R:NAV  Y:LOCAL  -:SALIR",
    "ZR:ОТКР  A:ИЗМ  ZL:УДАЛ  L/R:НАВ  Y:НАЗАД  -:ВЫХОД",
    "ZR:\u{00D6}FFNEN  A:BEARB.  ZL:L\u{00D6}SCH.  L/R:NAV  Y:LOKAL  -:BEENDEN",
    "ZR:APRI  A:MOD.  ZL:ELIM.  L/R:NAV  Y:LOCALE  -:ESCI",
    "ZR:ABRIR  A:EDITAR  ZL:EXCLUIR  L/R:NAV  Y:LOCAL  -:SAIR",
    "ZR:打开  A:编辑  ZL:删除  L/R:导航  Y:本地  -:退出",
    "ZR:A\u{00C7}  A:D\u{00DC}ZENLE  ZL:S\u{0130}L  L/R:GEZ  Y:YEREL  -:\u{00C7}IK",
];

pub const DIST_FOOTER_NOHIST: [&'static str; 9] = [
    "A:ENTER URL   Y:BACK LOCAL   -:QUIT",
    "A:SAISIR URL   Y:RETOUR LOCAL   -:QUITTER",
    "A:INTRODUCIR URL   Y:VOLVER LOCAL   -:SALIR",
    "A:ВВЕСТИ URL   Y:НАЗАД   -:ВЫХОД",
    "A:URL EINGEBEN   Y:ZUR\u{00DC}CK LOKAL   -:BEENDEN",
    "A:INSERISCI URL   Y:TORNA LOCALE   -:ESCI",
    "A:INSERIR URL   Y:VOLTAR LOCAL   -:SAIR",
    "A:输入网址   Y:返回本地   -:退出",
    "A:URL G\u{0130}R   Y:YEREL   -:\u{00C7}IKI\u{015E}",
];

pub const FILES_TITLE: [&'static str; 9] = [
    "REMOTE FILES",
    "FICHIERS DISTANTS",
    "ARCHIVOS REMOTOS",
    "ФАЙЛЫ ПО СЕТИ",
    "ENTFERNTE DATEIEN",
    "FILE REMOTI",
    "ARQUIVOS REMOTOS",
    "远程文件",
    "UZAK DOSYALAR",
];

pub const FILES_FILTER: [&'static str; 9] = [
    "FILTER",
    "FILTRE",
    "FILTRO",
    "ФИЛЬТР",
    "FILTER",
    "FILTRO",
    "FILTRO",
    "筛选",
    "F\u{0130}LTRE",
];

pub const FILES_FOOTER: [&'static str; 9] = [
    "A:DOWNLOAD   Y:SORT   -:SEARCH   L/R:PAGE   B:BACK",
    "A:T\u{00C9}L\u{00C9}CHARGER   Y:TRIER   -:RECHERCHE   L/R:PAGE   B:RETOUR",
    "A:DESCARGAR   Y:ORDENAR   -:BUSCAR   L/R:P\u{00C1}GINA   B:VOLVER",
    "A:ЗАГРУЗИТЬ   Y:СОРТ   -:ПОИСК   L/R:СТРАНИЦА   B:НАЗАД",
    "A:LADEN   Y:SORT.   -:SUCHE   L/R:SEITE   B:ZUR\u{00DC}CK",
    "A:SCARICA   Y:ORDINA   -:CERCA   L/R:PAGINA   B:INDIETRO",
    "A:BAIXAR   Y:ORDENAR   -:BUSCAR   L/R:P\u{00C1}GINA   B:VOLTAR",
    "A:下载   Y:排序   -:搜索   L/R:翻页   B:返回",
    "A:IND\u{0130}R   Y:SIRALA   -:ARA   L/R:SAYFA   B:GER\u{0130}",
];

pub const DL_TITLE: [&'static str; 9] = [
    "DOWNLOADING",
    "T\u{00C9}L\u{00C9}CHARGEMENT",
    "DESCARGANDO",
    "ЗАГРУЗКА",
    "WIRD GELADEN",
    "SCARICAMENTO",
    "BAIXANDO",
    "下载中",
    "IND\u{0130}R\u{0130}L\u{0130}YOR",
];

pub const DL_FOOTER: [&'static str; 9] = [
    "B:CANCEL",
    "B:ANNULER",
    "B:CANCELAR",
    "B:ОТМЕНА",
    "B:ABBRECHEN",
    "B:ANNULLA",
    "B:CANCELAR",
    "B:取消",
    "B:IPTAL",
];

pub const TOAST_DL_OK: [&'static str; 9] = [
    "{} DOWNLOADED",
    "{} T\u{00C9}L\u{00C9}CHARG\u{00C9}",
    "{} DESCARGADO",
    "{} ЗАГРУЖЕНО",
    "{} HERUNTERGELADEN",
    "{} SCARICATO",
    "{} BAIXADO",
    "{} 已下载",
    "{} \u{0130}ND\u{0130}R\u{0130}LD\u{0130}",
];

pub const TOAST_ASSETS_MISSING: [&'static str; 9] = [
    "MISSING GAME DATA: {}. THIS GAME MAY NOT START.",
    "DONN\u{00C9}ES DE JEU MANQUANTES : {}. CE JEU RISQUE DE NE PAS D\u{00C9}MARRER.",
    "FALTAN DATOS DEL JUEGO: {}. PUEDE QUE NO ARRANQUE.",
    "НЕТ ДАННЫХ ИГРЫ: {}. ИГРА МОЖЕТ НЕ ЗАПУСТИТЬСЯ.",
    "SPIELDATEN FEHLEN: {}. DAS SPIEL STARTET M\u{00D6}GLICHERWEISE NICHT.",
    "DATI DI GIOCO MANCANTI: {}. IL GIOCO POTREBBE NON AVVIARSI.",
    "DADOS DO JOGO AUSENTES: {}. O JOGO PODE N\u{00C3}O INICIAR.",
    "缺少游戏数据：{}。该游戏可能无法启动。",
    "OYUN VER\u{0130}LER\u{0130} EKS\u{0130}K: {}. OYUN BA\u{015E}LAMAYAB\u{0130}L\u{0130}R.",
];

pub const ERR_TITLE: [&'static str; 9] = [
    "ERROR",
    "ERREUR",
    "ERROR",
    "ОШИБКА",
    "FEHLER",
    "ERRORE",
    "ERRO",
    "错误",
    "HATA",
];

pub const ERR_FOOTER: [&'static str; 9] = [
    "A/B:OK",
    "A/B:OK",
    "A/B:OK",
    "A/B:ОК",
    "A/B:OK",
    "A/B:OK",
    "A/B:OK",
    "A/B:确定",
    "A/B:TAMAM",
];

pub const ERR_FOOTER_FIX: [&'static str; 9] = [
    "A/B:OK   Y:FIX THE URL",
    "A/B:OK   Y:CORRIGER L'URL",
    "A/B:OK   Y:CORREGIR LA URL",
    "A/B:ОК   Y:ИСПРАВИТЬ URL",
    "A/B:OK   Y:URL KORRIGIEREN",
    "A/B:OK   Y:CORREGGI L'URL",
    "A/B:OK   Y:CORRIGIR A URL",
    "A/B:确定   Y:修正网址",
    "A/B:TAMAM   Y:URL'Y\u{0130} D\u{00DC}ZELT",
];

pub const SETTINGS_TITLE: [&'static str; 9] = [
    "SETTINGS",
    "R\u{00C9}GLAGES",
    "AJUSTES",
    "НАСТРОЙКИ",
    "EINSTELLUNGEN",
    "IMPOSTAZIONI",
    "AJUSTES",
    "设置",
    "AYARLAR",
];

pub const SET_KEYS: [&'static str; 9] = [
    "DEFAULT CONTROLS",
    "TOUCHES PAR D\u{00C9}FAUT",
    "CONTROLES POR DEFECTO",
    "КЛАВИШИ ПО УМОЛЧАНИЮ",
    "STANDARDSTEUERUNG",
    "COMANDI PREDEFINITI",
    "CONTROLES PADR\u{00C3}O",
    "默认按键",
    "VARSAYILAN KONTROLLER",
];

pub const SET_LANGUAGE: [&'static str; 9] = [
    "LANGUAGE",
    "LANGUE",
    "IDIOMA",
    "ЯЗЫК",
    "SPRACHE",
    "LINGUA",
    "IDIOMA",
    "语言",
    "D\u{0130}L",
];

pub const SET_QUIT: [&'static str; 9] = [
    "QUIT",
    "QUITTER",
    "SALIR",
    "ВЫХОД",
    "BEENDEN",
    "ESCI",
    "SAIR",
    "退出",
    "\u{00C7}IKI\u{015E}",
];

pub const SET_CURSOR_SPEED: [&'static str; 9] = [
    "CURSOR SPEED",
    "VITESSE DU CURSEUR",
    "VELOCIDAD DEL CURSOR",
    "СКОРОСТЬ КУРСОРА",
    "CURSORGESCHWINDIGKEIT",
    "VELOCIT\u{00C0} CURSORE",
    "VELOCIDADE DO CURSOR",
    "光标速度",
    "IMLE\u{00C7} HIZI",
];

pub const SET_DISPLAY_MODE: [&'static str; 9] = [
    "DISPLAY",
    "AFFICHAGE",
    "PANTALLA",
    "ЭКРАН",
    "ANZEIGE",
    "SCHERMO",
    "TELA",
    "显示",
    "EKRAN",
];

pub const DISPLAY_FIT: [&'static str; 9] = [
    "FIT",
    "INT\u{00C9}GRAL",
    "AJUSTAR",
    "ВПИСАТЬ",
    "EINPASSEN",
    "ADATTA",
    "AJUSTAR",
    "适应",
    "SI\u{011E}DIR",
];

pub const DISPLAY_FILL: [&'static str; 9] = [
    "FILL",
    "REMPLIR",
    "RELLENAR",
    "ЗАПОЛНИТЬ",
    "F\u{00DC}LLEN",
    "RIEMPI",
    "PREENCHER",
    "填满",
    "DOLDUR",
];

pub const DISPLAY_STRETCH: [&'static str; 9] = [
    "STRETCH",
    "\u{00C9}TIRER",
    "ESTIRAR",
    "РАСТЯНУТЬ",
    "STRECKEN",
    "ALLARGA",
    "ESTICAR",
    "拉伸",
    "GER",
];

pub const SET_HOME_VIEW: [&'static str; 9] = [
    "HOME VIEW",
    "VUE ACCUEIL",
    "VISTA INICIO",
    "ВИД ГЛАВНОЙ",
    "STARTANSICHT",
    "VISTA HOME",
    "VISTA INÍCIO",
    "主页视图",
    "ANA EKRAN",
];

pub const HOME_GRID: [&'static str; 9] = [
    "GRID",
    "GRILLE",
    "CUADRÍCULA",
    "СЕТКА",
    "RASTER",
    "GRIGLIA",
    "GRADE",
    "网格",
    "IZGARA",
];

pub const HOME_LIST: [&'static str; 9] = [
    "LIST",
    "LISTE",
    "LISTA",
    "СПИСОК",
    "LISTE",
    "ELENCO",
    "LISTA",
    "列表",
    "LİSTE",
];

pub const HOME_STRIP: [&'static str; 9] = [
    "STRIP",
    "BANDE",
    "TIRA",
    "ЛЕНТА",
    "LEISTE",
    "STRISCIA",
    "FAIXA",
    "横条",
    "SERİT",
];

pub const HOME_SHELF: [&'static str; 9] = [
    "SHELF",
    "ETAGERE",
    "ESTANTE",
    "ПОЛКА",
    "REGAL",
    "SCAFFALE",
    "PRATELEIRA",
    "书架",
    "RAF",
];

pub const SET_GAME_PREFS: [&'static str; 9] = [
    "GAME DEFAULTS",
    "PR\u{00C9}F\u{00C9}RENCES DE JEU",
    "PREFERENCIAS",
    "ПРЕДПОЧТЕНИЯ",
    "SPIELVORGABEN",
    "PREFERENZE",
    "PREFER\u{00CA}NCIAS",
    "游戏默认",
    "OYUN VARSAYILANLARI",
];

pub const PREFS_TITLE: [&'static str; 9] = [
    "DEFAULT SETTINGS",
    "R\u{00C9}GLAGES PAR D\u{00C9}FAUT",
    "AJUSTES POR DEFECTO",
    "ПО УМОЛЧАНИЮ",
    "STANDARDWERTE",
    "VALORI PREDEFINITI",
    "PADR\u{00D5}ES",
    "默认设置",
    "VARSAYILANLAR",
];

pub const SET_SCREEN_FILTER: [&'static str; 9] = [
    "FILTER",
    "FILTRE",
    "FILTRO",
    "ФИЛЬТР",
    "FILTER",
    "FILTRO",
    "FILTRO",
    "滤镜",
    "F\u{0130}LTRE",
];

pub const FILTER_NONE: [&'static str; 9] = [
    "NONE",
    "AUCUN",
    "NINGUNO",
    "НЕТ",
    "KEINER",
    "NESSUNO",
    "NENHUM",
    "无",
    "YOK",
];

pub const FILTER_SCANLINES: [&'static str; 9] = [
    "SCANLINES",
    "LIGNES",
    "L\u{00CD}NEAS",
    "ЛИНИИ",
    "LINIEN",
    "LINEE",
    "LINHAS",
    "扫描线",
    "\u{00C7}\u{0130}ZG\u{0130}LER",
];

pub const FILTER_CRT: [&'static str; 9] = [
    "CRT",
    "CRT",
    "CRT",
    "CRT",
    "CRT",
    "CRT",
    "CRT",
    "CRT",
    "CRT",
];

pub const SHOW_CURSOR: [&'static str; 9] = [
    "SHOW CURSOR",
    "AFFICHER LE CURSEUR",
    "MOSTRAR CURSOR",
    "ПОКАЗАТЬ КУРСОР",
    "CURSOR ZEIGEN",
    "MOSTRA CURSORE",
    "MOSTRAR CURSOR",
    "显示光标",
    "IMLEC\u{0130} G\u{00D6}STER",
];

pub const CURSOR_SHOWN: [&'static str; 9] = [
    "SHOWN",
    "AFFICHÉ",
    "VISIBLE",
    "ПОКАЗАН",
    "SICHTBAR",
    "VISIBILE",
    "VIS\u{00CD}VEL",
    "显示",
    "G\u{00D6}R\u{00DC}N\u{00DC}R",
];

pub const CURSOR_HIDDEN: [&'static str; 9] = [
    "HIDDEN",
    "MASQUÉ",
    "OCULTO",
    "СКРЫТ",
    "VERBORGEN",
    "NASCOSTO",
    "OCULTO",
    "隐藏",
    "G\u{0130}ZL\u{0130}",
];

pub const SET_PSEUDO: [&'static str; 9] = [
    "NICKNAME",
    "PSEUDO",
    "APODO",
    "НИК",
    "SPITZNAME",
    "SOPRANNOME",
    "APELIDO",
    "昵称",
    "TAKMA AD",
];

pub const KBD_PSEUDO_GUIDE: [&'static str; 9] = [
    "Your name, shown next to your shared profiles",
    "Ton nom, affich\u{00E9} \u{00E0} c\u{00F4}t\u{00E9} de tes profils partag\u{00E9}s",
    "Tu nombre, junto a tus perfiles compartidos",
    "Имя рядом с твоими профилями в каталоге",
    "Dein Name, neben deinen geteilten Profilen",
    "Il tuo nome, accanto ai profili condivisi",
    "Seu nome, ao lado dos perfis compartilhados",
    "显示在你分享的配置旁边的名字",
    "Payla\u{015F}t\u{0131}\u{011F}\u{0131}n profillerde g\u{00F6}r\u{00Fc}nen ad\u{0131}n",
];

pub const SET_BACK: [&'static str; 9] = [
    "BACK",
    "RETOUR",
    "VOLVER",
    "НАЗАД",
    "ZUR\u{00DC}CK",
    "INDIETRO",
    "VOLTAR",
    "返回",
    "GER\u{0130}",
];

pub const SET_REPORT_BUG: [&'static str; 9] = [
    "REPORT A BUG",
    "SIGNALER UN BUG",
    "REPORTAR UN FALLO",
    "СООБЩИТЬ ОБ ОШИБКЕ",
    "FEHLER MELDEN",
    "SEGNALA UN BUG",
    "RELATAR UM BUG",
    "报告问题",
    "HATA B\u{0130}LD\u{0130}R",
];

pub const TAB_PLAY: [&'static str; 9] = [
    "PLAY",
    "JOUER",
    "JUGAR",
    "ИГРАТЬ",
    "SPIELEN",
    "GIOCA",
    "JOGAR",
    "游戏",
    "OYNA",
];

pub const TAB_IMPORT: [&'static str; 9] = [
    "IMPORT",
    "IMPORTER",
    "IMPORTAR",
    "ЗАГРУЗКА",
    "IMPORT",
    "IMPORTA",
    "IMPORTAR",
    "导入",
    "AKTAR",
];

pub const TAB_SETTINGS: [&'static str; 9] = [
    "SETTINGS",
    "R\u{00C9}GLAGES",
    "AJUSTES",
    "НАСТРОЙКИ",
    "EINSTELLUNGEN",
    "IMPOSTAZIONI",
    "AJUSTES",
    "设置",
    "AYARLAR",
];

pub const SET_COVERS: [&'static str; 9] = [
    "ONLINE COVERS",
    "JAQUETTES EN LIGNE",
    "CARATULAS EN LINEA",
    "ОБЛОЖКИ ОНЛАЙН",
    "ONLINE-COVER",
    "COPERTINE ONLINE",
    "CAPAS ONLINE",
    "在线封面",
    "\u{00C7}EVR\u{0130}M\u{0130}\u{00C7}\u{0130} KAPAKLAR",
];

pub const LBL_ON: [&'static str; 9] = [
    "ON",
    "ON",
    "ON",
    "ON",
    "AN",
    "ON",
    "ON",
    "开",
    "A\u{00C7}IK",
];

pub const LBL_OFF: [&'static str; 9] = [
    "OFF",
    "OFF",
    "OFF",
    "OFF",
    "AUS",
    "OFF",
    "OFF",
    "关",
    "KAPALI",
];

pub const OPT_COVER: [&'static str; 9] = [
    "COVER",
    "JAQUETTE",
    "CARATULA",
    "ОБЛОЖКА",
    "COVER",
    "COPERTINA",
    "CAPA",
    "封面",
    "KAPAK",
];

pub const OPT_FAVORITE: [&'static str; 9] = [
    "FAVORITE",
    "FAVORI",
    "FAVORITO",
    "В ИЗБРАННОЕ",
    "FAVORIT",
    "PREFERITO",
    "FAVORITO",
    "收藏",
    "FAVOR\u{0130}",
];

pub const OPT_UNFAVORITE: [&'static str; 9] = [
    "REMOVE FAVORITE",
    "RETIRER DES FAVORIS",
    "QUITAR FAVORITO",
    "ИЗ ИЗБРАННОГО",
    "FAVORIT ENTFERNEN",
    "RIMUOVI PREFERITO",
    "REMOVER FAVORITO",
    "取消收藏",
    "FAVOR\u{0130}DEN \u{00C7}IKAR",
];

pub const OPT_SHARE: [&'static str; 9] = [
    "SHARE CONTROLS",
    "PARTAGER LES TOUCHES",
    "COMPARTIR CONTROLES",
    "ПОДЕЛИТЬСЯ КЛАВИШАМИ",
    "STEUERUNG TEILEN",
    "CONDIVIDI COMANDI",
    "COMPARTILHAR CONTROLES",
    "分享按键",
    "KONTROLLER\u{0130} PAYLA\u{015E}",
];

pub const PROFILE_SHARED_OK: [&'static str; 9] = [
    "YOUR CONTROLS WERE SENT. THANKS FOR HELPING THE COMMUNITY.",
    "TES TOUCHES ONT \u{00C9}T\u{00C9} ENVOY\u{00C9}ES. MERCI POUR LA COMMUNAUT\u{00C9}.",
    "TUS CONTROLES SE ENVIARON. GRACIAS POR AYUDAR A LA COMUNIDAD.",
    "ВАШИ КЛАВИШИ ОТПРАВЛЕНЫ. СПАСИБО ЗА ПОМОЩЬ СООБЩЕСТВУ.",
    "DEINE STEUERUNG WURDE GESENDET. DANKE F\u{00DC}R DEINE HILFE.",
    "I TUOI COMANDI SONO STATI INVIATI. GRAZIE PER IL CONTRIBUTO.",
    "SEUS CONTROLES FORAM ENVIADOS. OBRIGADO POR AJUDAR A COMUNIDADE.",
    "你的按键已发送。感谢你为社区做出的贡献。",
    "KONTROLLER\u{0130}N G\u{00D6}NDER\u{0130}LD\u{0130}. TOPLULU\u{011E}A YARDIM I\u{00C7}IN TE\u{015E}EKK\u{00DC}RLER.",
];

pub const OPT_APPLY: [&'static str; 9] = [
    "APPLY A PROFILE",
    "APPLIQUER UN PROFIL",
    "APLICAR UN PERFIL",
    "ПРИМЕНИТЬ ПРОФИЛЬ",
    "PROFIL ANWENDEN",
    "APPLICA UN PROFILO",
    "APLICAR UM PERFIL",
    "应用配置",
    "PROF\u{0130}L UYGULA",
];

pub const PROFILE_TITLE: [&'static str; 9] = [
    "CONTROL PROFILES",
    "PROFILS DE TOUCHES",
    "PERFILES DE CONTROL",
    "ПРОФИЛИ КЛАВИШ",
    "STEUERUNGSPROFILE",
    "PROFILI COMANDI",
    "PERFIS DE CONTROLE",
    "按键配置",
    "KONTROL PROF\u{0130}LLER\u{0130}",
];

pub const PROFILE_FOOTER: [&'static str; 9] = [
    "A:APPLY   B:BACK   UP/DOWN:NAV",
    "A:APPLIQUER   B:RETOUR   HAUT/BAS:NAV",
    "A:APLICAR   B:VOLVER   ARRIBA/ABAJO:NAV",
    "A:ПРИМЕНИТЬ   B:НАЗАД   ВВЕРХ/ВНИЗ:НАВ",
    "A:ANWENDEN   B:ZUR\u{00DC}CK   HOCH/RUNTER:NAV",
    "A:APPLICA   B:INDIETRO   SU/GI\u{00D9}:NAV",
    "A:APLICAR   B:VOLTAR   CIMA/BAIXO:NAV",
    "A:应用   B:返回   上/下:导航",
    "A:UYGULA   B:GER\u{0130}   YUK/A\u{015E}A:GEZ",
];

pub const PROFILE_NONE: [&'static str; 9] = [
    "NO PROFILE FOR THIS GAME YET. SHARE YOURS TO HELP!",
    "AUCUN PROFIL POUR CE JEU. PARTAGE LE TIEN POUR AIDER !",
    "A\u{00DA}N NO HAY PERFIL PARA ESTE JUEGO. \u{00A1}COMPARTE EL TUYO!",
    "ДЛЯ ЭТОЙ ИГРЫ ПОКА НЕТ ПРОФИЛЯ. ПОДЕЛИТЕСЬ СВОИМ!",
    "NOCH KEIN PROFIL F\u{00DC}R DIESES SPIEL. TEILE DEINS!",
    "NESSUN PROFILO PER QUESTO GIOCO. CONDIVIDI IL TUO!",
    "AINDA SEM PERFIL PARA ESTE JOGO. COMPARTILHE O SEU!",
    "这个游戏还没有配置。分享你的吧！",
    "BU OYUN I\u{00C7}IN HEN\u{00DC}Z PROF\u{0130}L YOK. KEND\u{0130}N\u{0130}NK\u{0130}N\u{0130} PAYLA\u{015E}!",
];

pub const PROFILE_CATALOG_OFFLINE: [&'static str; 9] = [
    "CATALOG UNAVAILABLE. CHECK YOUR CONNECTION.",
    "CATALOGUE INDISPONIBLE. VERIFIE TA CONNEXION.",
    "CAT\u{00C1}LOGO NO DISPONIBLE. COMPRUEBA TU CONEXI\u{00D3}N.",
    "КАТАЛОГ НЕДОСТУПЕН. ПРОВЕРЬТЕ ПОДКЛЮЧЕНИЕ.",
    "KATALOG NICHT VERF\u{00DC}GBAR. PR\u{00DC}FE DEINE VERBINDUNG.",
    "CATALOGO NON DISPONIBILE. CONTROLLA LA CONNESSIONE.",
    "CAT\u{00C1}LOGO INDISPON\u{00CD}VEL. VERIFIQUE SUA CONEX\u{00C3}O.",
    "目录不可用。请检查网络连接。",
    "KATALOG KULLANILAMIYOR. BA\u{011E}LANTINI KONTROL ET.",
];

pub const PROFILE_REVERT: [&'static str; 9] = [
    "REVERT TO MY CONTROLS",
    "REVENIR \u{00C0} MES TOUCHES",
    "VOLVER A MIS CONTROLES",
    "ВЕРНУТЬ МОИ КЛАВИШИ",
    "ZU MEINER STEUERUNG ZUR\u{00DC}CK",
    "TORNA AI MIEI COMANDI",
    "VOLTAR AOS MEUS CONTROLES",
    "恢复我的按键",
    "KEND\u{0130} KONTROLLER\u{0130}ME D\u{00D6}N",
];

pub const PROFILE_APPLIED_OK: [&'static str; 9] = [
    "PROFILE APPLIED. YOUR PREVIOUS CONTROLS WERE SAVED.",
    "PROFIL APPLIQU\u{00C9}. TES TOUCHES PR\u{00C9}C\u{00C9}DENTES SONT SAUVEGARD\u{00C9}ES.",
    "PERFIL APLICADO. TUS CONTROLES ANTERIORES SE GUARDARON.",
    "ПРОФИЛЬ ПРИМЕНЕН. ВАШИ ПРЕЖНИЕ КЛАВИШИ СОХРАНЕНЫ.",
    "PROFIL ANGEWENDET. DEINE BISHERIGE STEUERUNG WURDE GESICHERT.",
    "PROFILO APPLICATO. I TUOI COMANDI PRECEDENTI SONO SALVATI.",
    "PERFIL APLICADO. SEUS CONTROLES ANTERIORES FORAM SALVOS.",
    "配置已应用。你之前的按键已保存。",
    "PROF\u{0130}L UYGULANDI. \u{00D6}NCEK\u{0130} KONTROLLER\u{0130}N KAYDED\u{0130}LD\u{0130}.",
];

pub const PROFILE_REVERTED_OK: [&'static str; 9] = [
    "YOUR CONTROLS WERE RESTORED.",
    "TES TOUCHES ONT \u{00C9}T\u{00C9} RESTAUR\u{00C9}ES.",
    "TUS CONTROLES SE RESTAURARON.",
    "ВАШИ КЛАВИШИ ВОССТАНОВЛЕНЫ.",
    "DEINE STEUERUNG WURDE WIEDERHERGESTELLT.",
    "I TUOI COMANDI SONO STATI RIPRISTINATI.",
    "SEUS CONTROLES FORAM RESTAURADOS.",
    "你的按键已恢复。",
    "KONTROLLER\u{0130}N GER\u{0130} Y\u{00DC}KLEND\u{0130}.",
];

pub const PROFILE_SHARE_CONFIRM: [&'static str; 9] = [
    "SHARE YOUR CONTROLS FOR THIS GAME?",
    "PARTAGER TES TOUCHES POUR CE JEU ?",
    "\u{00BF}COMPARTIR TUS CONTROLES PARA ESTE JUEGO?",
    "ПОДЕЛИТЬСЯ КЛАВИШАМИ ДЛЯ ЭТОЙ ИГРЫ?",
    "DEINE STEUERUNG F\u{00DC}R DIESES SPIEL TEILEN?",
    "CONDIVIDERE I TUOI COMANDI PER QUESTO GIOCO?",
    "COMPARTILHAR SEUS CONTROLES PARA ESTE JOGO?",
    "分享你为这个游戏设置的按键？",
    "BU OYUN I\u{00C7}IN KONTROLLER\u{0130}N PAYLA\u{015E}ILSIN MI?",
];

pub const SHARE_CONFIRM_UPDATE: [&'static str; 9] = [
    "UPDATES YOUR SHARED PROFILE:",
    "MET \u{00C0} JOUR TON PROFIL PARTAG\u{00C9} :",
    "ACTUALIZA TU PERFIL COMPARTIDO:",
    "ОБНОВИТ ТВОЙ ОБЩИЙ ПРОФИЛЬ:",
    "AKTUALISIERT DEIN GETEILTES PROFIL:",
    "AGGIORNA IL TUO PROFILO CONDIVISO:",
    "ATUALIZA SEU PERFIL COMPARTILHADO:",
    "更新你已分享的配置：",
    "PAYLA\u{015E}ILAN PROF\u{0130}L\u{0130}N\u{0130} G\u{00DC}NCELLER:",
];

pub const TOUCHES_EDIT: [&'static str; 9] = [
    "EDIT CONTROLS",
    "MODIFIER LES TOUCHES",
    "EDITAR CONTROLES",
    "ИЗМЕНИТЬ КЛАВИШИ",
    "STEUERUNG BEARBEITEN",
    "MODIFICA COMANDI",
    "EDITAR CONTROLES",
    "编辑按键",
    "KONTROLLER\u{0130} D\u{00DC}ZENLE",
];

pub const TOUCHES_FOOTER: [&'static str; 9] = [
    "A:SELECT   B:BACK   UP/DOWN:NAV",
    "A:CHOISIR   B:RETOUR   HAUT/BAS:NAV",
    "A:ELEGIR   B:VOLVER   ARRIBA/ABAJO:NAV",
    "A:ВЫБРАТЬ   B:НАЗАД   ВВЕРХ/ВНИЗ:НАВ",
    "A:W\u{00C4}HLEN   B:ZUR\u{00DC}CK   HOCH/RUNTER:NAV",
    "A:SCEGLI   B:INDIETRO   SU/GI\u{00D9}:NAV",
    "A:ESCOLHER   B:VOLTAR   CIMA/BAIXO:NAV",
    "A:选择   B:返回   上/下:导航",
    "A:SE\u{00C7}   B:GER\u{0130}   YUK/A\u{015E}A:GEZ",
];

pub const TOUCHES_REVERT_DEFAULT: [&'static str; 9] = [
    "RESET TO DEFAULT CONTROLS",
    "REVENIR AUX TOUCHES PAR D\u{00C9}FAUT",
    "RESTABLECER CONTROLES POR DEFECTO",
    "СБРОСИТЬ НА КЛАВИШИ ПО УМОЛЧАНИЮ",
    "AUF STANDARD ZUR\u{00DC}CKSETZEN",
    "RIPRISTINA COMANDI PREDEFINITI",
    "RESTAURAR CONTROLES PADR\u{00C3}O",
    "恢复默认按键",
    "VARSAYILAN KONTROLLERE D\u{00D6}N",
];

pub const PROFILE_PREVIEW_TITLE: [&'static str; 9] = [
    "MINE -> PROFILE",
    "MOI -> PROFIL",
    "MIOS -> PERFIL",
    "МОИ -> ПРОФИЛЬ",
    "MEINE -> PROFIL",
    "MIEI -> PROFILO",
    "MEUS -> PERFIL",
    "我的 -> 配置",
    "BEN\u{0130}MK\u{0130} -> PROF\u{0130}L",
];

pub const PROFILE_PREVIEW_FOOTER: [&'static str; 9] = [
    "A:APPLY   B:BACK",
    "A:APPLIQUER   B:RETOUR",
    "A:APLICAR   B:VOLVER",
    "A:ПРИМЕНИТЬ   B:НАЗАД",
    "A:ANWENDEN   B:ZUR\u{00DC}CK",
    "A:APPLICA   B:INDIETRO",
    "A:APLICAR   B:VOLTAR",
    "A:应用   B:返回",
    "A:UYGULA   B:GER\u{0130}",
];

pub const PROFILE_PREVIEW_NONE: [&'static str; 9] = [
    "THIS PROFILE CHANGES NONE OF YOUR KEYS.",
    "CE PROFIL NE CHANGE AUCUNE TOUCHE.",
    "ESTE PERFIL NO CAMBIA NINGUNA TECLA.",
    "ЭТОТ ПРОФИЛЬ НЕ МЕНЯЕТ КЛАВИШИ.",
    "DIESES PROFIL \u{00C4}NDERT KEINE TASTE.",
    "QUESTO PROFILO NON CAMBIA NESSUN TASTO.",
    "ESTE PERFIL N\u{00C3}O MUDA NENHUMA TECLA.",
    "此配置不会改变任何按键。",
    "BU PROF\u{0130}L H\u{0130}\u{00C7}B\u{0130}R TU\u{015E}UNU DE\u{011E}\u{0130}\u{015E}T\u{0130}RMEZ.",
];

pub const PROFILE_ACTIVE: [&'static str; 9] = [
    "(ACTIVE)",
    "(ACTIF)",
    "(ACTIVO)",
    "(АКТИВНЫЙ)",
    "(AKTIV)",
    "(ATTIVO)",
    "(ATIVO)",
    "(使用中)",
    "(ETK\u{0130}N)",
];

pub const PROFILE_SHARE_DUP: [&'static str; 9] = [
    "ALREADY IN THE CATALOG. EDIT A KEY TO SHARE YOUR OWN VERSION.",
    "D\u{00C9}J\u{00C0} DANS LE CATALOGUE. MODIFIE UNE TOUCHE POUR PARTAGER TA VERSION.",
    "YA EST\u{00C1} EN EL CAT\u{00C1}LOGO. CAMBIA UNA TECLA PARA COMPARTIR TU VERSI\u{00D3}N.",
    "УЖЕ В КАТАЛОГЕ. ИЗМЕНИ КЛАВИШУ, ЧТОБЫ ПОДЕЛИТЬСЯ СВОЕЙ ВЕРСИЕЙ.",
    "BEREITS IM KATALOG. \u{00C4}NDERE EINE TASTE, UM DEINE VERSION ZU TEILEN.",
    "GI\u{00C0} NEL CATALOGO. CAMBIA UN TASTO PER CONDIVIDERE LA TUA VERSIONE.",
    "J\u{00C1} EST\u{00C1} NO CAT\u{00C1}LOGO. MUDE UMA TECLA PARA COMPARTILHAR SUA VERS\u{00C3}O.",
    "已在目录中。修改一个按键即可分享你的版本。",
    "ZATEN KATALOGDA. KEND\u{0130} S\u{00DC}R\u{00DC}M\u{00DC}N\u{00DC} PAYLA\u{015E}MAK I\u{00C7}IN B\u{0130}R TU\u{015E} DE\u{011E}\u{0130}\u{015E}T\u{0130}R.",
];

pub const TOAST_ALREADY_IMPORTED: [&'static str; 9] = [
    "{} IS ALREADY IN YOUR LIBRARY.",
    "{} EST D\u{00C9}J\u{00C0} DANS TA LUDOTH\u{00C8}QUE.",
    "{} YA EST\u{00C1} EN TU BIBLIOTECA.",
    "{} УЖЕ В ВАШЕЙ БИБЛИОТЕКЕ.",
    "{} IST BEREITS IN DEINER BIBLIOTHEK.",
    "{} \u{00C8} GI\u{00C0} NELLA TUA LIBRERIA.",
    "{} J\u{00C1} EST\u{00C1} NA SUA BIBLIOTECA.",
    "{} 已经在你的库中。",
    "{} ZATEN K\u{00DC}T\u{00DC}PHANENDE.",
];

pub const PROFILE_DEL_CONFIRM: [&'static str; 9] = [
    "DELETE YOUR SHARED PROFILE?",
    "SUPPRIMER TON PROFIL PARTAG\u{00C9} ?",
    "\u{00BF}BORRAR TU PERFIL COMPARTIDO?",
    "УДАЛИТЬ ВАШ ПРОФИЛЬ?",
    "DEIN GETEILTES PROFIL L\u{00D6}SCHEN?",
    "ELIMINARE IL TUO PROFILO CONDIVISO?",
    "REMOVER SEU PERFIL COMPARTILHADO?",
    "删除你分享的配置？",
    "PAYLA\u{015E}ILAN PROF\u{0130}L\u{0130}N S\u{0130}L\u{0130}NS\u{0130}N M\u{0130}?",
];

pub const PROFILE_DEL_OK: [&'static str; 9] = [
    "YOUR SHARED PROFILE WAS DELETED.",
    "TON PROFIL PARTAG\u{00C9} A \u{00C9}T\u{00C9} SUPPRIM\u{00C9}.",
    "TU PERFIL COMPARTIDO FUE BORRADO.",
    "ВАШ ПРОФИЛЬ УДАЛЕН ИЗ КАТАЛОГА.",
    "DEIN GETEILTES PROFIL WURDE GEL\u{00D6}SCHT.",
    "IL TUO PROFILO CONDIVISO \u{00C8} STATO ELIMINATO.",
    "SEU PERFIL COMPARTILHADO FOI REMOVIDO.",
    "你分享的配置已从目录中删除。",
    "PAYLA\u{015E}ILAN PROF\u{0130}L\u{0130}N S\u{0130}L\u{0130}ND\u{0130}.",
];

pub const PROFILE_DEL_NOT_MINE: [&'static str; 9] = [
    "NOTHING TO DELETE: NOT SHARED FROM THIS CONSOLE.",
    "RIEN \u{00C0} SUPPRIMER : PAS PARTAG\u{00C9} DEPUIS CETTE CONSOLE.",
    "NADA QUE BORRAR DESDE ESTA CONSOLA.",
    "НЕЧЕГО УДАЛЯТЬ: НЕ ОПУБЛИКОВАНО С ЭТОЙ КОНСОЛИ.",
    "NICHTS ZU L\u{00D6}SCHEN VON DIESER KONSOLE.",
    "NIENTE DA ELIMINARE DA QUESTA CONSOLE.",
    "NADA A REMOVER DESTE CONSOLE.",
    "这台主机没有可删除的内容。",
    "S\u{0130}L\u{0130}NECEK B\u{0130}R \u{015E}EY YOK: BU KONSOLDAN PAYLA\u{015E}ILMADI.",
];

pub const PROFILE_DEL_HINT: [&'static str; 9] = [
    "X:DELETE",
    "X:SUPPRIMER",
    "X:BORRAR",
    "X:УДАЛИТЬ",
    "X:L\u{00D6}SCHEN",
    "X:ELIMINA",
    "X:REMOVER",
    "X:删除",
    "X:S\u{0130}L",
];

pub const REVERT_PREVIEW_TITLE: [&'static str; 9] = [
    "NOW -> AFTER REVERT",
    "ACTUEL -> APR\u{00C8}S RETOUR",
    "ACTUAL -> TRAS REVERTIR",
    "СЕЙЧАС -> ПОСЛЕ СБРОСА",
    "JETZT -> NACH R\u{00DC}CKSETZEN",
    "ORA -> DOPO IL RIPRISTINO",
    "AGORA -> AP\u{00D3}S REVERTER",
    "当前 -> 还原后",
    "\u{015E}\u{0130}MD\u{0130} -> GER\u{0130} ALINCA",
];

pub const REVERT_PREVIEW_FOOTER: [&'static str; 9] = [
    "A:REVERT   B:BACK",
    "A:REVENIR   B:RETOUR",
    "A:REVERTIR   B:VOLVER",
    "A:СБРОС   B:НАЗАД",
    "A:R\u{00DC}CKSETZEN   B:ZUR\u{00DC}CK",
    "A:RIPRISTINA   B:INDIETRO",
    "A:REVERTER   B:VOLTAR",
    "A:还原   B:返回",
    "A:GER\u{0130} AL   B:GER\u{0130}",
];

pub const COVER_TITLE: [&'static str; 9] = [
    "CHOOSE A COVER",
    "CHOISIR UNE JAQUETTE",
    "ELEGIR CARATULA",
    "ВЫБЕРИТЕ ОБЛОЖКУ",
    "COVER W\u{00C4}HLEN",
    "SCEGLI UNA COPERTINA",
    "ESCOLHER UMA CAPA",
    "选择封面",
    "KAPAK SE\u{00C7}",
];

pub const COVER_FOOTER: [&'static str; 9] = [
    "A: CHOOSE   -: SEARCH   UP/DOWN: MOVE   B: BACK",
    "A: CHOISIR   -: RECHERCHER   HAUT/BAS: NAVIGUER   B: RETOUR",
    "A: ELEGIR   -: BUSCAR   ARRIBA/ABAJO: MOVER   B: VOLVER",
    "A: ВЫБРАТЬ   -: ПОИСК   ВВЕРХ/ВНИЗ: НАВИГАЦИЯ   B: НАЗАД",
    "A: W\u{00C4}HLEN   -: SUCHE   HOCH/RUNTER: BEWEGEN   B: ZUR\u{00DC}CK",
    "A: SCEGLI   -: CERCA   SU/GI\u{00D9}: SPOSTA   B: INDIETRO",
    "A: ESCOLHER   -: BUSCAR   CIMA/BAIXO: MOVER   B: VOLTAR",
    "A: 选择   -: 搜索   上/下: 移动   B: 返回",
    "A:SE\u{00C7}   -:ARA   YUK/A\u{015E}A:GEZ   B:GER\u{0130}",
];

pub const COVER_SHOW_LOGOS: [&'static str; 9] = [
    "Y: LOGOS",
    "Y: LOGOS",
    "Y: LOGOS",
    "Y: ЛОГОТИПЫ",
    "Y: LOGOS",
    "Y: LOGHI",
    "Y: LOGOS",
    "Y: 标志",
    "Y: LOGOLAR",
];

pub const COVER_SHOW_SHOTS: [&'static str; 9] = [
    "Y: SCREENSHOTS",
    "Y: CAPTURES",
    "Y: CAPTURAS",
    "Y: СКРИНШОТЫ",
    "Y: SCREENSHOTS",
    "Y: SCHERMATE",
    "Y: CAPTURAS",
    "Y: 截图",
    "Y: EKRAN İMGELERİ",
];

pub const COVER_OFF_NOTICE: [&'static str; 9] = [
    "ENABLE ONLINE COVERS IN SETTINGS",
    "ACTIVE LES JAQUETTES EN LIGNE DANS LES R\u{00C9}GLAGES",
    "ACTIVA CARATULAS EN LINEA EN AJUSTES",
    "ВКЛЮЧИТЕ ОБЛОЖКИ ОНЛАЙН В НАСТРОЙКАХ",
    "ONLINE-COVER IN DEN EINSTELLUNGEN AKTIVIEREN",
    "ATTIVA LE COPERTINE ONLINE NELLE IMPOSTAZIONI",
    "ATIVE AS CAPAS ONLINE NOS AJUSTES",
    "在设置中启用在线封面",
    "AYARLARDAN \u{00C7}EVR\u{0130}M\u{0130}\u{00C7}\u{0130} KAPAKLARI A\u{00C7}IN",
];

pub const COVER_NONE: [&'static str; 9] = [
    "NO RESULTS",
    "AUCUN R\u{00C9}SULTAT",
    "SIN RESULTADOS",
    "НЕТ РЕЗУЛЬТАТОВ",
    "KEINE TREFFER",
    "NESSUN RISULTATO",
    "SEM RESULTADOS",
    "无结果",
    "SONU\u{00C7} YOK",
];

pub const FP_TITLE: [&'static str; 9] = [
    "FLASHPOINT",
    "FLASHPOINT",
    "FLASHPOINT",
    "FLASHPOINT",
    "FLASHPOINT",
    "FLASHPOINT",
    "FLASHPOINT",
    "FLASHPOINT",
    "FLASHPOINT",
];

pub const FP_FOOTER: [&'static str; 9] = [
    "A:DOWNLOAD   X:SEARCH   Y:SORT   +:INFO   ZL+ZR:FILTER {}   B:BACK",
    "A:T\u{00C9}L\u{00C9}CHARGER   X:RECHERCHE   Y:TRIER   +:INFOS   ZL+ZR:FILTRE {}   B:RETOUR",
    "A:DESCARGAR   X:BUSCAR   Y:ORDENAR   +:INFO   ZL+ZR:FILTRO {}   B:VOLVER",
    "A:СКАЧАТЬ   X:ПОИСК   Y:СОРТ   +:ИНФО   ZL+ZR:ФИЛЬТР {}   B:НАЗАД",
    "A:LADEN   X:SUCHE   Y:SORT.   +:INFO   ZL+ZR:FILTER {}   B:ZUR\u{00DC}CK",
    "A:SCARICA   X:CERCA   Y:ORDINA   +:INFO   ZL+ZR:FILTRO {}   B:INDIETRO",
    "A:BAIXAR   X:BUSCAR   Y:ORDENAR   +:INFO   ZL+ZR:FILTRO {}   B:VOLTAR",
    "A:下载   X:搜索   Y:排序   +:信息   ZL+ZR:筛选 {}   B:返回",
    "A:IND\u{0130}R  X:ARA  Y:SIRALA  +:B\u{0130}LG\u{0130}  ZL+ZR:F\u{0130}LTRE {}  B:GER\u{0130}",
];

pub const FP_DETAILS_TITLE: [&'static str; 9] = [
    "DETAILS",
    "D\u{00C9}TAILS",
    "DETALLES",
    "ПОДРОБНОСТИ",
    "DETAILS",
    "DETTAGLI",
    "DETALHES",
    "详情",
    "AYRINTILAR",
];

pub const FP_DETAILS_DEV: [&'static str; 9] = [
    "DEVELOPER",
    "D\u{00C9}VELOPPEUR",
    "DESARROLLADOR",
    "РАЗРАБОТЧИК",
    "ENTWICKLER",
    "SVILUPPATORE",
    "DESENVOLVEDOR",
    "开发者",
    "GEL\u{0130}\u{015E}T\u{0130}R\u{0130}C\u{0130}",
];

pub const FP_DETAILS_PUBLISHER: [&'static str; 9] = [
    "PUBLISHER",
    "\u{00C9}DITEUR",
    "EDITOR",
    "ИЗДАТЕЛЬ",
    "HERAUSGEBER",
    "EDITORE",
    "DISTRIBUIDORA",
    "发行商",
    "YAYINCI",
];

pub const FP_DETAILS_DATE: [&'static str; 9] = [
    "RELEASED",
    "SORTIE",
    "LANZAMIENTO",
    "ВЫПУСК",
    "VER\u{00D6}FFENTLICHT",
    "USCITA",
    "LAN\u{00C7}AMENTO",
    "发行日期",
    "\u{00C7}IKI\u{015E} TAR\u{0130}H\u{0130}",
];

pub const FP_DETAILS_SIZE: [&'static str; 9] = [
    "DOWNLOAD SIZE",
    "TAILLE DU T\u{00C9}L\u{00C9}CHARGEMENT",
    "TAMA\u{00D1}O DE DESCARGA",
    "РАЗМЕР ЗАГРУЗКИ",
    "DOWNLOAD-GR\u{00D6}SSE",
    "DIMENSIONE DOWNLOAD",
    "TAMANHO DO DOWNLOAD",
    "下载大小",
    "IND\u{0130}RME BOYUTU",
];

pub const FP_DETAILS_FOOTER: [&'static str; 9] = [
    "B:BACK",
    "B:RETOUR",
    "B:VOLVER",
    "B:НАЗАД",
    "B:ZUR\u{00DC}CK",
    "B:INDIETRO",
    "B:VOLTAR",
    "B:返回",
    "B:GER\u{0130}",
];

pub const SORT_TITLE: [&'static str; 9] = [
    "SORT BY",
    "TRIER PAR",
    "ORDENAR POR",
    "СОРТИРОВКА",
    "SORTIEREN NACH",
    "ORDINA PER",
    "ORDENAR POR",
    "排序方式",
    "SIRALAMA",
];

pub const SORT_FOOTER: [&'static str; 9] = [
    "A:CHOOSE   X:REVERSE   B:BACK",
    "A:CHOISIR   X:INVERSER   B:RETOUR",
    "A:ELEGIR   X:INVERTIR   B:VOLVER",
    "A:ВЫБРАТЬ   X:ОБРАТНО   B:НАЗАД",
    "A:W\u{00C4}HLEN   X:UMKEHREN   B:ZUR\u{00DC}CK",
    "A:SCEGLI   X:INVERTI   B:INDIETRO",
    "A:ESCOLHER   X:INVERTER   B:VOLTAR",
    "A:选择   X:反向   B:返回",
    "A:SE\u{00C7}   X:TERS   B:GER\u{0130}",
];

pub const SORT_ALPHA: [&'static str; 9] = [
    "NAME",
    "NOM",
    "NOMBRE",
    "ИМЯ",
    "NAME",
    "NOME",
    "NOME",
    "名称",
    "AD",
];

pub const SORT_RECENT: [&'static str; 9] = [
    "ADDED",
    "AJOUT\u{00C9}",
    "A\u{00D1}ADIDO",
    "ДОБАВЛЕН",
    "HINZUGEF\u{00DC}GT",
    "AGGIUNTO",
    "ADICIONADO",
    "添加时间",
    "EKLENME",
];

pub const SORT_PLAYED: [&'static str; 9] = [
    "MOST PLAYED",
    "PLUS JOU\u{00C9}S",
    "M\u{00C1}S JUGADOS",
    "ПО ВРЕМЕНИ",
    "MEIST GESPIELT",
    "PI\u{00D9} GIOCATI",
    "MAIS JOGADOS",
    "最常玩",
    "EN \u{00C7}OK OYNANAN",
];

pub const SORT_SIZE: [&'static str; 9] = [
    "SIZE",
    "TAILLE",
    "TAMA\u{00D1}O",
    "РАЗМЕР",
    "GR\u{00D6}SSE",
    "DIMENSIONE",
    "TAMANHO",
    "大小",
    "BOYUT",
];

pub const PLAYED_LABEL: [&'static str; 9] = [
    "PLAYED",
    "JOU\u{00C9}",
    "JUGADO",
    "СЫГРАНО",
    "GESPIELT",
    "GIOCATO",
    "JOGADO",
    "已玩",
    "OYNANDI",
];

pub const SORT_RECENT_PLAYED: [&'static str; 9] = [
    "LAST PLAYED",
    "DERNIER JOU\u{00C9}",
    "\u{00DA}LTIMO JUGADO",
    "НЕДАВНО ИГРАЛИ",
    "ZULETZT GESPIELT",
    "GIOCATO DI RECENTE",
    "JOGADO POR \u{00DA}LTIMO",
    "最近玩过",
    "SON OYNANAN",
];

pub const SORT_DEV: [&'static str; 9] = [
    "DEVELOPER",
    "D\u{00C9}VELOPPEUR",
    "DESARROLLADOR",
    "РАЗРАБОТЧИК",
    "ENTWICKLER",
    "SVILUPPATORE",
    "DESENVOLVEDOR",
    "开发者",
    "GEL\u{0130}\u{015E}T\u{0130}R\u{0130}C\u{0130}",
];

pub const SORT_SOURCE: [&'static str; 9] = [
    "SOURCE",
    "SOURCE",
    "FUENTE",
    "ИСТОЧНИК",
    "QUELLE",
    "FONTE",
    "FONTE",
    "来源",
    "KAYNAK",
];

pub const SORT_FILES: [&'static str; 9] = [
    "FILE COUNT",
    "NOMBRE DE FICHIERS",
    "N\u{00DA}MERO DE ARCHIVOS",
    "ЧИСЛО ФАЙЛОВ",
    "DATEIANZAHL",
    "NUMERO DI FILE",
    "N\u{00DA}MERO DE ARQUIVOS",
    "文件数量",
    "DOSYA SAYISI",
];

pub const FAV_ADDED: [&'static str; 9] = [
    "ADDED TO FAVORITES",
    "AJOUT\u{00C9} AUX FAVORIS",
    "A\u{00D1}ADIDO A FAVORITOS",
    "ДОБАВЛЕНО В ИЗБРАННОЕ",
    "ZU FAVORITEN HINZUGEF\u{00DC}GT",
    "AGGIUNTO AI PREFERITI",
    "ADICIONADO AOS FAVORITOS",
    "已加入收藏",
    "FAVOR\u{0130}LERE EKLEND\u{0130}",
];

pub const FAV_REMOVED: [&'static str; 9] = [
    "REMOVED FROM FAVORITES",
    "RETIR\u{00C9} DES FAVORIS",
    "QUITADO DE FAVORITOS",
    "УДАЛЕНО ИЗ ИЗБРАННОГО",
    "AUS FAVORITEN ENTFERNT",
    "RIMOSSO DAI PREFERITI",
    "REMOVIDO DOS FAVORITOS",
    "已取消收藏",
    "FAVOR\u{0130}LERDEN \u{00C7}IKARILDI",
];

pub const MULTIFILE: [&'static str; 9] = [
    "MULTI-FILE",
    "MULTI-FICHIERS",
    "MULTIARCHIVO",
    "МНОГОФАЙЛОВАЯ",
    "MEHRDATEI",
    "MULTI-FILE",
    "MULTIARQUIVO",
    "多文件",
    "\u{00C7}OK DOSYALI",
];

pub const SORT_DIR_ASC: [&'static str; 9] = [
    "ASCENDING",
    "CROISSANT",
    "ASCENDENTE",
    "ПО ВОЗР.",
    "AUFSTEIGEND",
    "CRESCENTE",
    "CRESCENTE",
    "升序",
    "ARTAN",
];

pub const SORT_DIR_DESC: [&'static str; 9] = [
    "DESCENDING",
    "D\u{00C9}CROISSANT",
    "DESCENDENTE",
    "ПО УБЫВ.",
    "ABSTEIGEND",
    "DECRESCENTE",
    "DECRESCENTE",
    "降序",
    "AZALAN",
];

pub const SETTINGS_FOOTER: [&'static str; 9] = [
    "L/R:TABS   A:OK",
    "L/R:ONGLETS   A:OK",
    "L/R:PESTA\u{00D1}AS   A:OK",
    "L/R:ВКЛАДКИ   A:ОК",
    "L/R:TABS   A:OK",
    "L/R:SCHEDE   A:OK",
    "L/R:ABAS   A:OK",
    "L/R:标签   A:确定",
    "L/R:SEKMELER   A:TAMAM",
];

pub const LANG_TITLE: [&'static str; 9] = [
    "LANGUAGE",
    "LANGUE",
    "IDIOMA",
    "ЯЗЫК",
    "SPRACHE",
    "LINGUA",
    "IDIOMA",
    "语言",
    "D\u{0130}L",
];

pub const LANG_FOOTER: [&'static str; 9] = [
    "A:OK   B:CANCEL",
    "A:OK   B:ANNULER",
    "A:OK   B:CANCELAR",
    "A:ОК   B:ОТМЕНА",
    "A:OK   B:ABBRECHEN",
    "A:OK   B:ANNULLA",
    "A:OK   B:CANCELAR",
    "A:确定   B:取消",
    "A:TAMAM   B:IPTAL",
];

pub const HISTDEL_TITLE: [&'static str; 9] = [
    "DELETE URL ?",
    "SUPPRIMER URL ?",
    "\u{00BF}BORRAR URL ?",
    "УДАЛИТЬ URL ?",
    "URL L\u{00D6}SCHEN ?",
    "ELIMINARE URL ?",
    "EXCLUIR URL ?",
    "删除网址？",
    "URL S\u{0130}L\u{0130}NS\u{0130}N M\u{0130}?",
];

pub const URL_INFO_TYPE: [&'static str; 9] = [
    "TYPE",
    "TYPE",
    "TIPO",
    "ТИП",
    "TYP",
    "TIPO",
    "TIPO",
    "类型",
    "T\u{00DC}R",
];

pub const URL_TYPE_SWF: [&'static str; 9] = [
    "SINGLE .SWF",
    "FICHIER .SWF",
    "ARCHIVO .SWF",
    "ОДИН .SWF",
    "EINZELNE .SWF",
    "FILE .SWF",
    "ARQUIVO .SWF",
    "单个 .SWF",
    "TEK .SWF",
];

pub const URL_TYPE_LIST: [&'static str; 9] = [
    "FILE LIST",
    "LISTE DE FICHIERS",
    "LISTA DE ARCHIVOS",
    "СПИСОК ФАЙЛОВ",
    "DATEILISTE",
    "ELENCO DI FILE",
    "LISTA DE ARQUIVOS",
    "文件列表",
    "DOSYA L\u{0130}STES\u{0130}",
];

pub const URL_INFO_FILES: [&'static str; 9] = [
    "ON SD",
    "SUR LA SD",
    "EN LA SD",
    "НА SD",
    "AUF SD",
    "SU SD",
    "NO SD",
    "已在 SD 卡",
    "SD KARTTA",
];

pub const URL_INFO_ADDED: [&'static str; 9] = [
    "ADDED",
    "AJOUT\u{00C9}E LE",
    "A\u{00D1}ADIDA EL",
    "ДОБАВЛЕНО",
    "HINZUGEF\u{00DC}GT",
    "AGGIUNTA IL",
    "ADICIONADA EM",
    "添加于",
    "EKLEND\u{0130}",
];

pub const HISTDEL_MSG: [&'static str; 9] = [
    "Remove this URL from the history?",
    "RETIRER CETTE URL DE L'HISTORIQUE ?",
    "\u{00BF}QUITAR ESTA URL DEL HISTORIAL?",
    "УБРАТЬ ЭТОТ URL ИЗ ИСТОРИИ?",
    "DIESE URL AUS DEM VERLAUF ENTFERNEN?",
    "RIMUOVERE QUESTO URL DALLA CRONOLOGIA?",
    "REMOVER ESTA URL DO HIST\u{00D3}RICO?",
    "从历史记录中移除此网址？",
    "BU URL GE\u{00C7}M\u{0130}\u{015E}TEN S\u{0130}L\u{0130}NS\u{0130}N M\u{0130}?",
];

pub const ERR_TOO_LARGE: [&'static str; 9] = [
    "Archive.org response too large (>4 MB). Item too big for this build.",
    "R\u{00C9}PONSE ARCHIVE.ORG TROP VOLUMINEUSE (>4 MB). ITEM TROP MASSIF POUR CETTE VERSION.",
    "RESPUESTA DE ARCHIVE.ORG DEMASIADO GRANDE (>4 MB). ITEM DEMASIADO GRANDE PARA ESTA VERSI\u{00D3}N.",
    "ОТВЕТ ARCHIVE.ORG СЛИШКОМ БОЛЬШОЙ (>4 МБ). ЭЛЕМЕНТ СЛИШКОМ ВЕЛИК ДЛЯ ЭТОЙ ВЕРСИИ.",
    "ARCHIVE.ORG-ANTWORT ZU GROSS (>4 MB). ELEMENT ZU GROSS F\u{00DC}R DIESE VERSION.",
    "RISPOSTA DI ARCHIVE.ORG TROPPO GRANDE (>4 MB). ELEMENTO TROPPO GRANDE PER QUESTA VERSIONE.",
    "RESPOSTA DO ARCHIVE.ORG MUITO GRANDE (>4 MB). ITEM GRANDE DEMAIS PARA ESTA VERS\u{00C3}O.",
    "ARCHIVE.ORG 响应过大 (>4 MB)。此项目对当前版本来说太大了。",
    "ARCHIVE.ORG YANITI \u{00C7}OK B\u{00DC}Y\u{00DC}K (>4 MB). BU S\u{00DC}R\u{00DC}M I\u{00C7}IN \u{00C7}OK B\u{00DC}Y\u{00DC}K.",
];

pub const ERR_HTTPS: [&'static str; 9] = [
    "Transfer failed ({}). Check the WiFi and the URL.",
    "\u{00C9}CHEC DU TRANSFERT ({}). V\u{00C9}RIFIEZ LE WIFI ET L'URL.",
    "FALLO DE TRANSFERENCIA ({}). COMPRUEBA EL WIFI Y LA URL.",
    "СБОЙ ПЕРЕДАЧИ ({}). ПРОВЕРЬТЕ WIFI И URL.",
    "\u{00DC}BERTRAGUNG FEHLGESCHLAGEN ({}). PR\u{00DC}FE WLAN UND URL.",
    "TRASFERIMENTO FALLITO ({}). CONTROLLA IL WIFI E L'URL.",
    "FALHA NA TRANSFER\u{00CA}NCIA ({}). VERIFIQUE O WIFI E A URL.",
    "传输失败 ({})。请检查 WIFI 和网址。",
    "AKTARIM BA\u{015E}ARISIZ ({}). WIFI VE URL'Y\u{0130} KONTROL ED\u{0130}N.",
];

pub const ERR_OFFLINE: [&'static str; 9] = [
    "No connection. Check the console's WiFi.",
    "PAS DE CONNEXION. V\u{00C9}RIFIEZ LE WIFI DE LA CONSOLE.",
    "SIN CONEXI\u{00D3}N. COMPRUEBA EL WIFI DE LA CONSOLA.",
    "НЕТ СОЕДИНЕНИЯ. ПРОВЕРЬТЕ WIFI КОНСОЛИ.",
    "KEINE VERBINDUNG. PR\u{00DC}FE DAS WLAN DER KONSOLE.",
    "NESSUNA CONNESSIONE. CONTROLLA IL WIFI DELLA CONSOLE.",
    "SEM CONEX\u{00C3}O. VERIFIQUE O WIFI DO CONSOLE.",
    "无网络连接。请检查主机的 WIFI。",
    "BA\u{011E}LANTI YOK. KONSOLUN WIFI BA\u{011E}LANTISINI KONTROL ED\u{0130}N.",
];

pub const ERR_TIMEOUT: [&'static str; 9] = [
    "The server did not answer in time. Try again.",
    "LE SERVEUR N'A PAS R\u{00C9}PONDU \u{00C0} TEMPS. R\u{00C9}ESSAYEZ.",
    "EL SERVIDOR NO RESPONDI\u{00D3} A TIEMPO. INT\u{00C9}NTALO DE NUEVO.",
    "СЕРВЕР НЕ ОТВЕТИЛ ВОВРЕМЯ. ПОПРОБУЙТЕ СНОВА.",
    "DER SERVER HAT NICHT RECHTZEITIG GEANTWORTET. ERNEUT VERSUCHEN.",
    "IL SERVER NON HA RISPOSTO IN TEMPO. RIPROVA.",
    "O SERVIDOR N\u{00C3}O RESPONDEU A TEMPO. TENTE NOVAMENTE.",
    "服务器未及时响应。请重试。",
    "SUNUCU ZAMANINDA YANIT VERMED\u{0130}. TEKRAR DENEY\u{0130}N.",
];

pub const ERR_TLS: [&'static str; 9] = [
    "Secure connection refused. Check the console's date and time: a wrong clock breaks HTTPS.",
    "CONNEXION S\u{00C9}CURIS\u{00C9}E REFUS\u{00C9}E. V\u{00C9}RIFIEZ LA DATE ET L'HEURE DE LA CONSOLE : UNE HORLOGE FAUSSE CASSE LE HTTPS.",
    "CONEXI\u{00D3}N SEGURA RECHAZADA. COMPRUEBA LA FECHA Y LA HORA DE LA CONSOLA: UN RELOJ MAL AJUSTADO ROMPE HTTPS.",
    "ЗАЩИЩЁННОЕ СОЕДИНЕНИЕ ОТКЛОНЕНО. ПРОВЕРЬТЕ ДАТУ И ВРЕМЯ КОНСОЛИ: НЕВЕРНЫЕ ЧАСЫ ЛОМАЮТ HTTPS.",
    "SICHERE VERBINDUNG ABGELEHNT. PR\u{00DC}FE DATUM UND UHRZEIT DER KONSOLE: EINE FALSCHE UHR BRICHT HTTPS.",
    "CONNESSIONE SICURA RIFIUTATA. CONTROLLA DATA E ORA DELLA CONSOLE: UN OROLOGIO ERRATO ROMPE L'HTTPS.",
    "CONEX\u{00C3}O SEGURA RECUSADA. VERIFIQUE A DATA E A HORA DO CONSOLE: UM REL\u{00D3}GIO ERRADO QUEBRA O HTTPS.",
    "安全连接被拒绝。请检查主机的日期和时间：时钟错误会导致 HTTPS 失败。",
    "G\u{00DC}VENL\u{0130} BA\u{011E}LANTI REDDED\u{0130}LD\u{0130}. KONSOLUN TAR\u{0130}H VE SAAT\u{0130}N\u{0130} KONTROL ED\u{0130}N: YANLI\u{015E} SAAT HTTPS'\u{0130} BOZAR.",
];

pub const ERR_RESPONSE_BIG: [&'static str; 9] = [
    "Response too large for this build. Try a narrower search.",
    "R\u{00C9}PONSE TROP VOLUMINEUSE. ESSAYEZ UNE RECHERCHE PLUS PR\u{00C9}CISE.",
    "RESPUESTA DEMASIADO GRANDE. PRUEBA UNA B\u{00DA}SQUEDA M\u{00C1}S PRECISA.",
    "ОТВЕТ СЛИШКОМ БОЛЬШОЙ. УТОЧНИТЕ ЗАПРОС.",
    "ANTWORT ZU GROSS. VERSUCHE EINE GENAUERE SUCHE.",
    "RISPOSTA TROPPO GRANDE. PROVA UNA RICERCA PI\u{00D9} PRECISA.",
    "RESPOSTA MUITO GRANDE. TENTE UMA BUSCA MAIS PRECISA.",
    "响应过大。请使用更精确的搜索。",
    "YANIT \u{00C7}OK B\u{00DC}Y\u{00DC}K. DAHA DAR B\u{0130}R ARAMA DENEY\u{0130}N.",
];

pub const ERR_SD_WRITE: [&'static str; 9] = [
    "Could not write to the SD card. It may be full or write-protected.",
    "\u{00C9}CRITURE IMPOSSIBLE SUR LA CARTE SD. ELLE EST PEUT-\u{00CA}TRE PLEINE.",
    "NO SE PUDO ESCRIBIR EN LA TARJETA SD. QUIZ\u{00C1} EST\u{00C9} LLENA.",
    "НЕ УДАЛОСЬ ЗАПИСАТЬ НА SD-КАРТУ. ВОЗМОЖНО, ОНА ЗАПОЛНЕНА.",
    "SCHREIBEN AUF DIE SD-KARTE FEHLGESCHLAGEN. SIE IST EVENTUELL VOLL.",
    "IMPOSSIBILE SCRIVERE SULLA SCHEDA SD. FORSE \u{00C8} PIENA.",
    "N\u{00C3}O FOI POSS\u{00CD}VEL ESCREVER NO CART\u{00C3}O SD. TALVEZ ESTEJA CHEIO.",
    "无法写入 SD 卡。可能已满或被写保护。",
    "SD KARTA YAZILAMADI. DOLU OLAB\u{0130}L\u{0130}R.",
];

pub const ERR_HTTP_STATUS: [&'static str; 9] = [
    "The server refused the request (HTTP {}). Try again later.",
    "LE SERVEUR A REFUS\u{00C9} LA REQU\u{00CA}TE (HTTP {}). R\u{00C9}ESSAYEZ PLUS TARD.",
    "EL SERVIDOR RECHAZ\u{00D3} LA PETICI\u{00D3}N (HTTP {}). INT\u{00C9}NTALO M\u{00C1}S TARDE.",
    "СЕРВЕР ОТКЛОНИЛ ЗАПРОС (HTTP {}). ПОПРОБУЙТЕ ПОЗЖЕ.",
    "DER SERVER HAT DIE ANFRAGE ABGELEHNT (HTTP {}). SP\u{00C4}TER ERNEUT VERSUCHEN.",
    "IL SERVER HA RIFIUTATO LA RICHIESTA (HTTP {}). RIPROVA PI\u{00D9} TARDI.",
    "O SERVIDOR RECUSOU O PEDIDO (HTTP {}). TENTE MAIS TARDE.",
    "服务器拒绝了请求 (HTTP {})。请稍后重试。",
    "SUNUCU \u{0130}STE\u{011E}\u{0130} REDDETT\u{0130} (HTTP {}). DAHA SONRA DENEY\u{0130}N.",
];

pub const ERR_NOT_FOUND: [&'static str; 9] = [
    "Not found (404). The URL or the item id is wrong, or it was removed.",
    "INTROUVABLE (404). L'URL OU L'IDENTIFIANT DE L'ITEM EST FAUX, OU IL A \u{00C9}T\u{00C9} SUPPRIM\u{00C9}.",
    "NO ENCONTRADO (404). LA URL O EL ID DEL ITEM ES INCORRECTO, O FUE ELIMINADO.",
    "НЕ НАЙДЕНО (404). НЕВЕРНЫЙ URL ИЛИ ID ЭЛЕМЕНТА, ЛИБО ОН УДАЛЁН.",
    "NICHT GEFUNDEN (404). URL ODER ITEM-ID IST FALSCH, ODER ES WURDE ENTFERNT.",
    "NON TROVATO (404). URL O ID DELL'ELEMENTO ERRATO, OPPURE \u{00C8} STATO RIMOSSO.",
    "N\u{00C3}O ENCONTRADO (404). A URL OU O ID DO ITEM EST\u{00C1} ERRADO, OU FOI REMOVIDO.",
    "未找到 (404)。网址或条目 ID 有误，或已被删除。",
    "BULUNAMADI (404). URL VEYA \u{00D6}\u{011E}E K\u{0130}ML\u{0130}\u{011E}\u{0130} YANLI\u{015E} YA DA KALDIRILMI\u{015E}.",
];

pub const ERR_JSON: [&'static str; 9] = [
    "Unreadable archive.org JSON: {}",
    "JSON ARCHIVE.ORG ILLISIBLE : {}",
    "JSON DE ARCHIVE.ORG ILEGIBLE: {}",
    "НЕЧИТАЕМЫЙ JSON ARCHIVE.ORG: {}",
    "UNLESBARES ARCHIVE.ORG-JSON: {}",
    "JSON DI ARCHIVE.ORG ILLEGGIBILE: {}",
    "JSON DO ARCHIVE.ORG ILEG\u{00CD}VEL: {}",
    "无法读取 ARCHIVE.ORG 的 JSON: {}",
    "OKUNAMAYAN ARCHIVE.ORG JSON: {}",
];

pub const ERR_JSON_NO_FILES: [&'static str; 9] = [
    "JSON has no \"files\" field",
    "JSON SANS CHAMP \"files\"",
    "JSON SIN CAMPO \"files\"",
    "В JSON НЕТ ПОЛЯ \"files\"",
    "JSON OHNE \"files\"-FELD",
    "JSON SENZA CAMPO \"files\"",
    "JSON SEM O CAMPO \"files\"",
    "JSON 中没有 \"files\" 字段",
    "JSON'DA \"files\" ALANI YOK",
];

pub const ERR_DL_START: [&'static str; 9] = [
    "Could not start the download (code {}).",
    "IMPOSSIBLE DE LANCER LE T\u{00C9}L\u{00C9}CHARGEMENT (CODE {}).",
    "NO SE PUDO INICIAR LA DESCARGA (C\u{00D3}DIGO {}).",
    "НЕ УДАЛОСЬ НАЧАТЬ ЗАГРУЗКУ (КОД {}).",
    "DOWNLOAD KONNTE NICHT GESTARTET WERDEN (CODE {}).",
    "IMPOSSIBILE AVVIARE IL DOWNLOAD (CODICE {}).",
    "N\u{00C3}O FOI POSS\u{00CD}VEL INICIAR O DOWNLOAD (C\u{00D3}DIGO {}).",
    "无法开始下载（代码 {}）。",
    "IND\u{0130}RME BA\u{015E}LATILAMADI (KOD {}).",
];

pub const ERR_DL_FAILED: [&'static str; 9] = [
    "Download failed (code {})",
    "T\u{00C9}L\u{00C9}CHARGEMENT \u{00C9}CHOU\u{00C9} (CODE {})",
    "DESCARGA FALLIDA (C\u{00D3}DIGO {})",
    "ЗАГРУЗКА НЕ УДАЛАСЬ (КОД {})",
    "DOWNLOAD FEHLGESCHLAGEN (CODE {})",
    "DOWNLOAD FALLITO (CODICE {})",
    "FALHA NO DOWNLOAD (C\u{00D3}DIGO {})",
    "下载失败（代码 {}）",
    "IND\u{0130}RME BA\u{015E}ARISIZ (KOD {})",
];

pub const ERR_DL_CANCELLED: [&'static str; 9] = [
    "Download cancelled by the user.",
    "T\u{00C9}L\u{00C9}CHARGEMENT ANNUL\u{00C9} PAR L'UTILISATEUR.",
    "DESCARGA CANCELADA POR EL USUARIO.",
    "ЗАГРУЗКА ОТМЕНЕНА ПОЛЬЗОВАТЕЛЕМ.",
    "DOWNLOAD VOM BENUTZER ABGEBROCHEN.",
    "DOWNLOAD ANNULLATO DALL'UTENTE.",
    "DOWNLOAD CANCELADO PELO USU\u{00C1}RIO.",
    "下载已被用户取消。",
    "IND\u{0130}RME KULLANICI TARAFINDAN IPTAL ED\u{0130}LD\u{0130}.",
];

pub const ERR_URL_INVALID: [&'static str; 9] = [
    "Invalid URL. Expected an archive.org URL like https://archive.org/details/<id> or simply <id>.",
    "URL INVALIDE. ATTENDU UNE URL ARCHIVE.ORG TYPE https://archive.org/details/<id> OU SIMPLEMENT <id>.",
    "URL INV\u{00C1}LIDA. SE ESPERABA UNA URL DE ARCHIVE.ORG TIPO https://archive.org/details/<id> O SIMPLEMENTE <id>.",
    "НЕВЕРНЫЙ URL. ОЖИДАЛСЯ URL ARCHIVE.ORG ВИДА https://archive.org/details/<id> ИЛИ ПРОСТО <id>.",
    "UNG\u{00DC}LTIGE URL. ERWARTET WIRD EINE ARCHIVE.ORG-URL WIE https://archive.org/details/<id> ODER EINFACH <id>.",
    "URL NON VALIDO. ATTESO UN URL DI ARCHIVE.ORG TIPO https://archive.org/details/<id> O SEMPLICEMENTE <id>.",
    "URL INV\u{00C1}LIDA. ESPERADA UMA URL DO ARCHIVE.ORG TIPO https://archive.org/details/<id> OU SIMPLESMENTE <id>.",
    "网址无效。应为 ARCHIVE.ORG 网址，例如 https://archive.org/details/<id>，或直接输入 <id>。",
    "GE\u{00C7}ERS\u{0130}Z URL. https://archive.org/details/<id> G\u{0130}B\u{0130} B\u{0130}R URL VEYA SADECE <id> BEKLEN\u{0130}YOR.",
];

pub const ERR_NO_SWF: [&'static str; 9] = [
    "No .SWF file found for this game.",
    "AUCUN FICHIER .SWF TROUV\u{00C9} POUR CE JEU.",
    "NO SE ENCONTR\u{00D3} NING\u{00DA}N ARCHIVO .SWF PARA ESTE JUEGO.",
    "ДЛЯ ЭТОЙ ИГРЫ НЕ НАЙДЕНО ФАЙЛОВ .SWF.",
    "KEINE .SWF-DATEI F\u{00DC}R DIESES SPIEL GEFUNDEN.",
    "NESSUN FILE .SWF TROVATO PER QUESTO GIOCO.",
    "NENHUM ARQUIVO .SWF ENCONTRADO PARA ESTE JOGO.",
    "未找到此游戏的 .SWF 文件。",
    "BU OYUN \u{0130}\u{00C7}\u{0130}N .SWF DOSYASI BULUNAMADI.",
];

pub const ERR_DL_NOT_A_GAME: [&'static str; 9] = [
    "The download did not return a game file. Check the address and try again.",
    "LE T\u{00C9}L\u{00C9}CHARGEMENT N'A PAS RENVOY\u{00C9} UN FICHIER DE JEU. V\u{00C9}RIFIEZ L'ADRESSE.",
    "LA DESCARGA NO DEVOLVI\u{00D3} UN ARCHIVO DE JUEGO. COMPRUEBA LA DIRECCI\u{00D3}N.",
    "ЗАГРУЗКА ВЕРНУЛА НЕ ИГРОВОЙ ФАЙЛ. ПРОВЕРЬТЕ АДРЕС.",
    "DER DOWNLOAD HAT KEINE SPIELDATEI GELIEFERT. PR\u{00DC}FE DIE ADRESSE.",
    "IL DOWNLOAD NON HA RESTITUITO UN FILE DI GIOCO. CONTROLLA L'INDIRIZZO.",
    "O DOWNLOAD N\u{00C3}O RETORNOU UM ARQUIVO DE JOGO. VERIFIQUE O ENDERE\u{00C7}O.",
    "下载返回的不是游戏文件。请检查地址。",
    "\u{0130}ND\u{0130}RME B\u{0130}R OYUN DOSYASI D\u{00D6}ND\u{00DC}RMED\u{0130}. ADRES\u{0130} KONTROL ED\u{0130}N.",
];

pub const ERR_FP_HTML_GAME: [&'static str; 9] = [
    "This game launches from an HTML page (FlashVars) and isn't supported yet.",
    "CE JEU SE LANCE VIA UNE PAGE HTML (FLASHVARS), PAS ENCORE SUPPORT\u{00C9}.",
    "ESTE JUEGO SE INICIA DESDE UNA P\u{00C1}GINA HTML (FLASHVARS); A\u{00DA}N NO COMPATIBLE.",
    "ЭТА ИГРА ЗАПУСКАЕТСЯ ЧЕРЕЗ HTML-СТРАНИЦУ (FLASHVARS), ПОКА НЕ ПОДДЕРЖИВАЕТСЯ.",
    "DIESES SPIEL STARTET \u{00DC}BER EINE HTML-SEITE (FLASHVARS), NOCH NICHT UNTERST\u{00DC}TZT.",
    "QUESTO GIOCO SI AVVIA DA UNA PAGINA HTML (FLASHVARS), NON ANCORA SUPPORTATO.",
    "ESTE JOGO INICIA POR UMA P\u{00C1}GINA HTML (FLASHVARS), AINDA N\u{00C3}O SUPORTADO.",
    "此游戏通过 HTML 页面（FLASHVARS）启动，暂不支持。",
    "BU OYUN B\u{0130}R HTML SAYFASINDAN (FLASHVARS) BA\u{015E}LAR, HEN\u{00DC}Z DESTEKLENM\u{0130}YOR.",
];

pub const KBD_URL_HEADER: [&'static str; 9] = [
    "FlashNX - Remote import",
    "FlashNX - Import distant",
    "FlashNX - Importar remoto",
    "FlashNX - Zagruzka po seti",
    "FlashNX - Online-Import",
    "FlashNX - Import remoto",
    "FlashNX - Importar remoto",
    "FlashNX - 在线导入",
    "FlashNX - Uzaktan i\u{00E7}e aktarma",
];

pub const KBD_URL_GUIDE: [&'static str; 9] = [
    "archive.org item URL (e.g. https://archive.org/download/your-game-id)",
    "URL archive.org de l'item (ex: https://archive.org/download/your-game-id)",
    "URL del item de archive.org (ej: https://archive.org/download/your-game-id)",
    "URL elementa archive.org (naprimer: https://archive.org/download/your-game-id)",
    "archive.org-Item-URL (z.B. https://archive.org/download/your-game-id)",
    "URL dell'elemento archive.org (es: https://archive.org/download/your-game-id)",
    "URL do item do archive.org (ex: https://archive.org/download/your-game-id)",
    "archive.org 项目网址（例如 https://archive.org/download/your-game-id）",
    "archive.org \u{00F6}\u{011F}e URL'si (\u{00F6}rn. https://archive.org/download/oyun-kimligi)",
];

pub const KBD_RENAME_HEADER: [&'static str; 9] = [
    "FlashNX - Rename game",
    "FlashNX - Renommer le jeu",
    "FlashNX - Renombrar juego",
    "FlashNX - Pereimenovat",
    "FlashNX - Spiel umbenennen",
    "FlashNX - Rinomina gioco",
    "FlashNX - Renomear jogo",
    "FlashNX - 重命名游戏",
    "FlashNX - Oyunu yeniden adland\u{0131}r",
];

pub const KBD_RENAME_GUIDE: [&'static str; 9] = [
    "Display name (leave empty to revert to the file name)",
    "Nom d'affichage (laisser vide pour revenir au nom de fichier)",
    "Nombre a mostrar (dejar vacio para volver al nombre de archivo)",
    "Otobrazhaemoe imya (ostavte pustym chtoby vernut imya fayla)",
    "Anzeigename (leer lassen, um zum Dateinamen zur\u{00FC}ckzukehren)",
    "Nome visualizzato (lascia vuoto per tornare al nome del file)",
    "Nome de exibi\u{00E7}\u{00E3}o (deixe vazio para voltar ao nome do arquivo)",
    "显示名称（留空以恢复文件名）",
    "G\u{00F6}r\u{00FC}nen ad (dosya ad\u{0131}na d\u{00F6}nmek i\u{00E7}in bo\u{015F} b\u{0131}rak\u{0131}n)",
];

pub const KBD_SEARCH_HEADER: [&'static str; 9] = [
    "FlashNX - Search",
    "FlashNX - Rechercher",
    "FlashNX - Buscar",
    "FlashNX - Poisk",
    "FlashNX - Suche",
    "FlashNX - Cerca",
    "FlashNX - Buscar",
    "FlashNX - 搜索",
    "FlashNX - Ara",
];

pub const KBD_SEARCH_GUIDE: [&'static str; 9] = [
    "Filter by file name (empty = show everything)",
    "Filtre nom de fichier (vide = tout afficher)",
    "Filtrar por nombre de archivo (vacio = mostrar todo)",
    "Filtr po imeni fayla (pusto = pokazat vse)",
    "Nach Dateiname filtern (leer = alles anzeigen)",
    "Filtra per nome file (vuoto = mostra tutto)",
    "Filtrar por nome de arquivo (vazio = mostrar tudo)",
    "按文件名筛选（留空 = 显示全部）",
    "Dosya ad\u{0131}na g\u{00F6}re filtrele (bo\u{015F} = hepsini g\u{00F6}ster)",
];

pub const BUG_PICK_TITLE: [&'static str; 9] = [
    "REPORT A BUG",
    "SIGNALER UN BUG",
    "REPORTAR UN FALLO",
    "СООБЩИТЬ ОБ ОШИБКЕ",
    "FEHLER MELDEN",
    "SEGNALA UN BUG",
    "RELATAR UM BUG",
    "报告问题",
    "HATA B\u{0130}LD\u{0130}R",
];

pub const BUG_PICK_FOOTER: [&'static str; 9] = [
    "A:CHOOSE   B:BACK   UP/DOWN:NAV",
    "A:CHOISIR   B:RETOUR   HAUT/BAS:NAV",
    "A:ELEGIR   B:VOLVER   ARRIBA/ABAJO:NAV",
    "A:ВЫБРАТЬ   B:НАЗАД   ВВЕРХ/ВНИЗ:НАВ",
    "A:W\u{00C4}HLEN   B:ZUR\u{00DC}CK   HOCH/RUNTER:NAV",
    "A:SCEGLI   B:INDIETRO   SU/GI\u{00D9}:NAV",
    "A:ESCOLHER   B:VOLTAR   CIMA/BAIXO:NAV",
    "A:选择   B:返回   上/下:导航",
    "A:SE\u{00C7}   B:GER\u{0130}   YUK/A\u{015E}A:GEZ",
];

pub const BUG_NO_GAMES: [&'static str; 9] = [
    "NO GAME TO REPORT YET. IMPORT OR DROP A .SWF FIRST.",
    "AUCUN JEU \u{00C0} SIGNALER. IMPORTE OU D\u{00C9}POSE UN .SWF D'ABORD.",
    "NO HAY JUEGO QUE REPORTAR. IMPORTA O COLOCA UN .SWF PRIMERO.",
    "НЕТ ИГР ДЛЯ ОТЧЕТА. СНАЧАЛА ДОБАВЬТЕ ИЛИ ЗАГРУЗИТЕ .SWF.",
    "NOCH KEIN SPIEL ZU MELDEN. IMPORTIERE ODER LEGE ZUERST EINE .SWF AB.",
    "NESSUN GIOCO DA SEGNALARE. IMPORTA O INSERISCI PRIMA UN .SWF.",
    "NENHUM JOGO PARA RELATAR. IMPORTE OU COLOQUE UM .SWF PRIMEIRO.",
    "暂无可报告的游戏。请先导入或放入一个 .SWF。",
    "B\u{0130}LD\u{0130}R\u{0130}LECEK OYUN YOK. \u{00D6}NCE B\u{0130}R .SWF AKTARIN.",
];

pub const BUG_OK_TITLE: [&'static str; 9] = [
    "THANKS!",
    "MERCI !",
    "\u{00A1}GRACIAS!",
    "СПАСИБО!",
    "DANKE!",
    "GRAZIE!",
    "OBRIGADO!",
    "谢谢！",
    "TE\u{015E}EKK\u{00DC}RLER!",
];

pub const BUG_OK_MSG: [&'static str; 9] = [
    "YOUR REPORT WAS SENT. THANKS FOR HELPING IMPROVE FLASHNX.",
    "TON RAPPORT A \u{00C9}T\u{00C9} ENVOY\u{00C9}. MERCI DE M'AIDER \u{00C0} AM\u{00C9}LIORER FLASHNX.",
    "TU INFORME SE ENVI\u{00D3}. GRACIAS POR AYUDAR A MEJORAR FLASHNX.",
    "ОТЧЕТ ОТПРАВЛЕН. СПАСИБО ЧТО ПОМОГАЕТЕ УЛУЧШИТЬ FLASHNX.",
    "DEIN BERICHT WURDE GESENDET. DANKE, DASS DU HILFST, FLASHNX ZU VERBESSERN.",
    "LA TUA SEGNALAZIONE \u{00C8} STATA INVIATA. GRAZIE PER AIUTARE A MIGLIORARE FLASHNX.",
    "SEU RELATO FOI ENVIADO. OBRIGADO POR AJUDAR A MELHORAR O FLASHNX.",
    "你的报告已发送。感谢你帮助改进 FLASHNX。",
    "RAPORUN G\u{00D6}NDER\u{0130}LD\u{0130}. FLASHNX'I GEL\u{0130}\u{015E}T\u{0130}RMEYE YARDIM I\u{00C7}IN TE\u{015E}EKK\u{00DC}RLER.",
];

pub const BUG_FAIL_TITLE: [&'static str; 9] = [
    "FAILED",
    "\u{00C9}CHEC",
    "FALLO",
    "ОШИБКА",
    "FEHLGESCHLAGEN",
    "FALLITO",
    "FALHOU",
    "失败",
    "BA\u{015E}ARISIZ",
];

pub const KBD_BUG_HEADER: [&'static str; 9] = [
    "FlashNX - Report a bug",
    "FlashNX - Signaler un bug",
    "FlashNX - Reportar un fallo",
    "FlashNX - Soobshchit ob oshibke",
    "FlashNX - Fehler melden",
    "FlashNX - Segnala un bug",
    "FlashNX - Relatar um bug",
    "FlashNX - 报告问题",
    "FlashNX - Hata bildir",
];

pub const KBD_BUG_GUIDE: [&'static str; 9] = [
    "Opens a PUBLIC GitHub issue. Describe the problem. Optional: your @handle.",
    "Ouvre une issue GitHub PUBLIQUE. Décris le problème. Option : ton @pseudo.",
    "Abre un issue PUBLICO en GitHub. Describe el problema. Opcional: tu @usuario.",
    "Otkroet PUBLICHNUYU issue na GitHub. Opishite problemu. @nik po zhelaniyu.",
    "\u{00D6}ffnet ein \u{00F6}ffentliches GitHub-Issue. Beschreibe das Problem. Optional: dein @Name.",
    "Apre una issue PUBBLICA su GitHub. Descrivi il problema. Facoltativo: il tuo @nome.",
    "Abre uma issue P\u{00DA}BLICA no GitHub. Descreva o problema. Opcional: seu @usu\u{00E1}rio.",
    "将打开一个公开的 GitHub issue。请描述问题。可选：你的 @用户名。",
    "Herkese a\u{00E7}\u{0131}k bir GitHub konusu a\u{00E7}ar. Sorunu anlat. \u{0130}ste\u{011F}e ba\u{011F}l\u{0131}: @kullan\u{0131}c\u{0131} ad\u{0131}n.",
];

pub const SET_SUGGEST: [&'static str; 9] = [
    "MAKE A SUGGESTION",
    "FAIRE UNE PROPOSITION",
    "HACER UNA SUGERENCIA",
    "ПРЕДЛОЖИТЬ ИДЕЮ",
    "VORSCHLAG MACHEN",
    "PROPONI UN'IDEA",
    "FAZER UMA SUGEST\u{00C3}O",
    "提出建议",
    "\u{00D6}NER\u{0130}DE BULUN",
];

pub const KBD_SUGGEST_HEADER: [&'static str; 9] = [
    "FlashNX - Make a suggestion",
    "FlashNX - Faire une proposition",
    "FlashNX - Hacer una sugerencia",
    "FlashNX - Predlozhit ideyu",
    "FlashNX - Vorschlag machen",
    "FlashNX - Proponi un'idea",
    "FlashNX - Fazer uma sugest\u{00E3}o",
    "FlashNX - 提出建议",
    "FlashNX - \u{00D6}neride bulun",
];

pub const KBD_SUGGEST_GUIDE: [&'static str; 9] = [
    "Opens a PUBLIC GitHub issue. Your idea / feature request for FlashNX.",
    "Ouvre une issue GitHub PUBLIQUE. Ton idée / proposition pour FlashNX.",
    "Abre un issue PUBLICO en GitHub. Tu idea / sugerencia para FlashNX.",
    "Otkroet PUBLICHNUYU issue na GitHub. Vasha ideya / predlozhenie.",
    "\u{00D6}ffnet ein \u{00F6}ffentliches GitHub-Issue. Deine Idee / dein Wunsch f\u{00FC}r FlashNX.",
    "Apre una issue PUBBLICA su GitHub. La tua idea / proposta per FlashNX.",
    "Abre uma issue P\u{00DA}BLICA no GitHub. Sua ideia / sugest\u{00E3}o para o FlashNX.",
    "将打开一个公开的 GitHub issue。你对 FlashNX 的想法 / 建议。",
    "Herkese a\u{00E7}\u{0131}k bir GitHub konusu a\u{00E7}ar. FlashNX i\u{00E7}in fikrin / \u{00F6}zellik iste\u{011F}in.",
];

pub const OPTIMIZING: [&'static str; 9] = [
    "OPTIMIZING",
    "OPTIMISATION",
    "OPTIMIZANDO",
    "OPTIMIZATSIYA",
    "OPTIMIERUNG",
    "OTTIMIZZAZIONE",
    "OTIMIZANDO",
    "\u{4F18}\u{5316}\u{4E2D}",
    "OPTIMIZE EDILIYOR",
];

} // verus!
