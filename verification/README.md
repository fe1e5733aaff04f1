# factelo

Reglas de facturación electrónica de Factelo (registro inalterable
Veri*factu, Facturae 3.2.2, QR de la AEAT, validación de facturas, clientes,
series y empresas, datos de los PDF) como biblioteca verificada con Verus.

- `src/`: la biblioteca. Cada función lleva su contrato (`requires` /
  `ensures`) sobre funciones espec y Verus lo demuestra.
  - `texto`, `hash`: operaciones de texto, formato decimal, SHA-256 y
    hexadecimal.
  - `audit`: cadena de eventos enlazada por SHA-256, su verificación,
    leyes de integridad y fichero de inspección.
  - `commands`: validación y hash encadenado de facturas, clientes,
    empresas, series, productos y consulta analítica.
  - `facturae`: NIF con país, documento Facturae e IVA por tipo.
  - `qr`: URL de notariado de la AEAT y su QR en SVG y PNG.
  - `pdf`: datos de la plantilla de factura, IVA agrupado, mapa de calor,
    nombres de fichero, fechas y programas externos.
  - `auth`, `keychain`, `db`, `aeat`, `xades`, `error`: contraseñas
    Argon2id, clave de la base de datos, URL y `PRAGMA` de SQLite, envío a la
    AEAT, comprobaciones de la firma XAdES y errores.
- `tests/`: pruebas sobre valores concretos.
- `app/`: el programa: base de datos, ficheros, red, plantillas HTML,
  serialización y los cálculos en coma flotante.
